use cairo_pipeline::stage::{PipelineError, Stage};
use cairo_pipeline::state::{Action, PipelineState, StageOutcome};

const STAGES: [Stage; 5] = [Stage::Load, Stage::Execute, Stage::Adapt, Stage::Prove, Stage::Verify];

fn failed(cause: &str) -> StageOutcome {
    StageOutcome::Failed(cause.to_string())
}

fn after_completed(stages: usize) -> PipelineState {
    let mut state = PipelineState::start();
    for _ in 0..stages {
        state = state.advance(StageOutcome::Completed);
    }
    state
}

#[test]
fn stages_are_ranked_in_the_order_of_a_run() {
    for (position, stage) in STAGES.iter().enumerate() {
        assert_eq!(stage.index() as usize, position);
    }
}

#[test]
fn a_run_starts_idle_and_loads_first() {
    let state = PipelineState::start();
    assert_eq!(state, PipelineState::Idle);
    assert_eq!(state.active_stage(), Some(Stage::Load));
    assert_eq!(state.next_action(), Action::Run(Stage::Load));
    assert!(!state.is_terminal());
    assert_eq!(state.report(), None);
}

#[test]
fn completed_stages_lead_through_every_state_to_done() {
    assert_eq!(after_completed(0), PipelineState::Idle);
    assert_eq!(after_completed(1), PipelineState::Executing);
    assert_eq!(after_completed(2), PipelineState::Adapting);
    assert_eq!(after_completed(3), PipelineState::Proving);
    assert_eq!(after_completed(4), PipelineState::Verifying);
    assert_eq!(after_completed(5), PipelineState::Done);
}

#[test]
fn every_state_awaits_its_own_stage() {
    for (position, stage) in STAGES.iter().enumerate() {
        let state = after_completed(position);
        assert_eq!(state.active_stage(), Some(*stage));
        assert_eq!(state.next_action(), Action::Run(*stage));
    }
}

#[test]
fn done_reports_success_and_stays() {
    let done = after_completed(5);
    assert!(done.is_terminal());
    assert_eq!(done.active_stage(), None);
    assert_eq!(done.next_action(), Action::ReportSuccess);
    assert_eq!(done.clone().report(), Some(Ok(())));
    assert_eq!(done.clone().advance(StageOutcome::Completed), PipelineState::Done);
    assert_eq!(done.advance(failed("too late")), PipelineState::Done);
}

#[test]
fn a_failure_names_the_stage_that_was_awaited() {
    for (position, stage) in STAGES.iter().enumerate() {
        let state = after_completed(position).advance(failed("broken"));
        let error = PipelineError { stage: *stage, message: "broken".to_string() };
        assert_eq!(state, PipelineState::Failed(error.clone()));
        assert!(state.is_terminal());
        assert_eq!(state.next_action(), Action::ReportFailure);
        assert_eq!(state.report(), Some(Err(error)));
    }
}

#[test]
fn the_first_failure_is_the_one_reported() {
    let state = after_completed(2)
        .advance(failed("first"))
        .advance(failed("second"))
        .advance(StageOutcome::Completed);
    assert_eq!(
        state,
        PipelineState::Failed(PipelineError { stage: Stage::Adapt, message: "first".to_string() })
    );
}

#[test]
fn a_failed_execution_lets_no_later_stage_run() {
    let mut state = after_completed(1).advance(failed("invalid opcode"));
    for _ in 0..4 {
        assert_eq!(state.next_action(), Action::ReportFailure);
        assert_eq!(state.active_stage(), None);
        state = state.advance(StageOutcome::Completed);
    }
    assert_eq!(
        state.report(),
        Some(Err(PipelineError { stage: Stage::Execute, message: "invalid opcode".to_string() }))
    );
}

#[test]
fn no_stage_is_invoked_twice_in_a_run() {
    let mut state = PipelineState::start();
    let mut invoked = Vec::new();
    for _ in 0..8 {
        if let Action::Run(stage) = state.next_action() {
            assert!(!invoked.contains(&stage));
            if let Some(last) = invoked.last() {
                assert!(Stage::index(*last) < stage.index());
            }
            invoked.push(stage);
        }
        state = state.advance(StageOutcome::Completed);
    }
    assert_eq!(invoked, STAGES.to_vec());
}

#[test]
fn a_pipeline_error_keeps_stage_and_message_apart() {
    let error = PipelineError::new(Stage::Prove, "constraints not satisfied".to_string());
    assert_eq!(error.stage, Stage::Prove);
    assert_eq!(error.message, "constraints not satisfied");
}

#[test]
fn every_stage_has_its_name() {
    let names: Vec<&str> = STAGES.iter().map(|stage| stage.name()).collect();
    assert_eq!(names, ["load", "execution", "adaptation", "proving", "verification"]);
}
