use cairo_pipeline::config::{Layout, RunConfiguration};
use cairo_pipeline::pipeline::{execution_outcome, run_cairo_program, Pipeline};
use cairo_vm::cairo_run::{cairo_run, CairoRunConfig};
use cairo_vm::hint_processor::builtin_hint_processor::builtin_hint_processor_definition::BuiltinHintProcessor;
use cairo_vm::types::layout_name::LayoutName;
use cairo_vm::vm::errors::cairo_run_errors::CairoRunError;
use cairo_vm::vm::runners::cairo_runner::CairoRunner;
use cairo_pipeline::program::{program_image, PROGRAM_JSON};
use cairo_pipeline::stage::Stage;
use cairo_pipeline::state::PipelineState;

fn engine(image: &[u8], configuration: &RunConfiguration) -> Result<CairoRunner, CairoRunError> {
    let run_config = CairoRunConfig {
        entrypoint: configuration.entrypoint.as_str(),
        trace_enabled: configuration.trace_enabled,
        relocate_mem: configuration.relocate_mem,
        relocate_trace: configuration.relocate_trace,
        layout: match configuration.layout {
            Layout::AllCairoStwo => LayoutName::all_cairo_stwo,
            Layout::StwoNoEcOp => LayoutName::stwo_no_ecop,
        },
        dynamic_layout_params: None,
        proof_mode: configuration.proof_mode,
        fill_holes: configuration.fill_holes,
        secure_run: configuration.secure_run,
        disable_trace_padding: configuration.disable_trace_padding,
        allow_missing_builtins: configuration.allow_missing_builtins,
    };
    cairo_run(image, &run_config, &mut BuiltinHintProcessor::new_empty())
}

fn executed_under(pipeline: Pipeline, configuration: &RunConfiguration) -> Pipeline {
    let (pipeline, image) = pipeline.begin_executing();
    match image {
        Some(image) => pipeline.record_execution(execution_outcome(engine(&image, configuration))),
        None => pipeline,
    }
}

fn executed(pipeline: Pipeline) -> Pipeline {
    executed_under(pipeline, &RunConfiguration::standard())
}

fn program_output() -> String {
    let mut runner = run_cairo_program().unwrap();
    let mut output = String::new();
    runner.vm.write_output(&mut output).unwrap();
    output
}

#[test]
fn test_run_cairo_program() {
    let mut runner = run_cairo_program().unwrap();
    let mut output = String::new();
    runner.vm.write_output(&mut output).unwrap();
    assert_eq!(output, "144\n");
}

#[test]
fn program_image_is_the_embedded_text() {
    assert_eq!(program_image(), PROGRAM_JSON.as_bytes());
    assert!(!program_image().is_empty());
}

#[test]
fn program_image_is_well_formed_json() {
    let parsed: serde_json::Value = serde_json::from_slice(program_image()).unwrap();
    assert_eq!(parsed["builtins"].as_array().unwrap().len(), 11);
    assert_eq!(parsed["data"].as_array().unwrap().len(), 39);
    assert_eq!(parsed["identifiers"]["__main__.main"]["pc"], serde_json::Value::from(6));
}

#[test]
fn repeated_executions_agree() {
    let first = program_output();
    let second = program_output();
    assert_eq!(first, second);
    assert_eq!(first, "144\n");
}

#[test]
fn repeated_executions_leave_the_same_trace_and_memory() {
    let first = run_cairo_program().unwrap();
    let second = run_cairo_program().unwrap();
    assert!(first.relocated_trace.is_some());
    assert_eq!(first.relocated_trace, second.relocated_trace);
    assert!(!first.relocated_memory.is_empty());
    assert_eq!(first.relocated_memory, second.relocated_memory);
}

#[test]
fn execution_of_an_unreadable_image_fails_at_the_execution_stage() {
    let pipeline = executed(Pipeline::new().load(Ok(b"not a program".to_vec())));
    match pipeline.state() {
        PipelineState::Failed(error) => {
            assert_eq!(error.stage, Stage::Execute);
            assert!(!error.message.is_empty());
        }
        other => panic!("unexpected state {:?}", other),
    }
}

#[test]
fn execution_needs_the_entrypoint_to_exist() {
    let mut configuration = RunConfiguration::standard();
    configuration.entrypoint = "absent".to_string();
    let pipeline = executed_under(Pipeline::new().load_embedded(), &configuration);
    match pipeline.state() {
        PipelineState::Failed(error) => {
            assert_eq!(error.stage, Stage::Execute);
            assert_eq!(error.message, "Entrypoint absent not found");
        }
        other => panic!("unexpected state {:?}", other),
    }
}

#[test]
fn execution_under_the_layout_without_ec_op_succeeds() {
    let mut configuration = RunConfiguration::standard();
    configuration.layout = Layout::StwoNoEcOp;
    let pipeline = executed_under(Pipeline::new().load_embedded(), &configuration);
    assert_eq!(pipeline.state(), PipelineState::Adapting);
}

#[test]
fn the_run_of_the_library_is_the_run_of_the_engine() {
    let ours = run_cairo_program().unwrap();
    let theirs = engine(program_image(), &RunConfiguration::standard()).unwrap();
    assert!(ours.relocated_trace.is_some());
    assert_eq!(ours.relocated_trace, theirs.relocated_trace);
    assert_eq!(ours.relocated_memory, theirs.relocated_memory);
}

#[test]
fn a_finished_run_is_taken_in_as_it_is() {
    let run = run_cairo_program().unwrap();
    let trace = run.relocated_trace.clone();
    match execution_outcome(Ok(run)) {
        Ok(same) => assert_eq!(same.relocated_trace, trace),
        Err(cause) => panic!("the run was lost: {}", cause),
    }
}

const FAILING_PROGRAM: &str = r#"{
    "builtins": [],
    "data": ["0x480680017fff8000", "0x1", "0x400680017fff7fff", "0x2", "0x208b7fff7fff7ffe"],
    "hints": {},
    "identifiers": {"__main__.main": {"pc": 0, "type": "function"}},
    "prime": "0x800000000000011000000000000000000000000000000000000000000000001",
    "reference_manager": {"references": []}
}"#;

#[test]
fn an_error_of_the_engine_is_written_without_its_place_in_the_source() {
    let failure = || {
        let mut hints = BuiltinHintProcessor::new_empty();
        let config = CairoRunConfig { layout: LayoutName::all_cairo, ..CairoRunConfig::default() };
        cairo_run(FAILING_PROGRAM.as_bytes(), &config, &mut hints).err().unwrap()
    };
    let inside = match failure() {
        CairoRunError::VmException(exception) => exception.inner_exc.to_string(),
        other => panic!("another error: {}", other),
    };
    assert_eq!(inside, "An ASSERT_EQ instruction failed: 1 != 2.");
    assert!(failure().to_string().starts_with("Error at pc="));
    assert_eq!(execution_outcome(Err(failure())).err(), Some(inside));
}

#[test]
fn every_other_error_of_the_engine_is_written_as_the_engine_writes_it() {
    let failure = || engine(b"{}", &RunConfiguration::standard()).err().unwrap();
    assert!(!matches!(failure(), CairoRunError::VmException(_)));
    assert_eq!(execution_outcome(Err(failure())).err(), Some(failure().to_string()));
}
