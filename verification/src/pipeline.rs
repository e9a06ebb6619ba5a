//! The pipeline itself: one run from the program image to a verified proof,
//! each stage entered once and in order, the first failure ending the run.

use vstd::prelude::*;
use vstd::slice::slice_to_vec;
use vstd::string::StringSliceAdditionalSpecFns;

use cairo_vm::vm::errors::cairo_run_errors::CairoRunError;
use cairo_vm::vm::runners::cairo_runner::CairoRunner;
use stwo_cairo_adapter::ProverInput;

use crate::config::{
    standard_proof_configuration, standard_run_configuration, ProofConfiguration,
    RunConfiguration,
};
use crate::engine::{declared_configuration, engine_returned, text_of_failure, Proof};
use crate::program::{program_image, PROGRAM_JSON};
use crate::stage::{ErrorModel, PipelineError, Stage};
use crate::state::{entered_after, Action, OutcomeModel, PipelineState, StateModel};

verus! {

/// The cause reported where a proof names another configuration than the one
/// it is to be verified under.
pub const CONFIGURATION_MISMATCH: &'static str =
    "the proof was made under another proof configuration";

/// Where a run stands, together with the one artifact that the awaited stage
/// consumes. A final state holds nothing.
enum Progress {
    Idle,
    /// The program image, until it has been handed to the engine.
    Executing(Option<Vec<u8>>),
    /// The finished run, until it has been handed to the adapter.
    Adapting(Option<CairoRunner>),
    /// The prover input, until it has been handed to the prover.
    Proving(Option<ProverInput>),
    /// The proof, until it has been handed to the verifier.
    Verifying(Option<Proof>),
    Done,
    Failed(PipelineError),
}

/// One run of the pipeline. The engine, the adapter, the prover and the
/// verifier are called by whoever drives the run: the pipeline hands each of
/// them its input, once and in its turn, and takes in what it answered.
pub struct Pipeline {
    proof_configuration: ProofConfiguration,
    progress: Progress,
}

/// What a contract says of a `Pipeline`: its state, its proof configuration,
/// and the artifact that it holds.
pub struct PipelineModel {
    pub state: StateModel,
    pub proof_configuration: ProofConfiguration,
    /// The program image, from loading until it is handed out.
    pub image: Option<Seq<u8>>,
    /// The finished run, from the end of execution until it is handed out.
    pub run: Option<CairoRunner>,
    /// The prover input, from the end of adaptation until it is handed out.
    pub input: Option<ProverInput>,
    /// The proof, from the end of proving until it is handed out.
    pub proof: Option<Proof>,
}

impl PipelineModel {
    /// The same pipeline in the given state, holding nothing.
    pub open spec fn emptied(self, state: StateModel) -> PipelineModel {
        PipelineModel { state, image: None, run: None, input: None, proof: None, ..self }
    }

    /// The same pipeline after `stage` failed with `cause`.
    pub open spec fn failed(self, stage: Stage, cause: Seq<char>) -> PipelineModel {
        self.emptied(StateModel::Failed(ErrorModel { stage, message: cause }))
    }

    /// A pipeline holds nothing but the artifact that its state awaits.
    pub open spec fn consistent(self) -> bool {
        &&& self.image is Some ==> self.state == StateModel::Executing
        &&& self.run is Some ==> self.state == StateModel::Adapting
        &&& self.input is Some ==> self.state == StateModel::Proving
        &&& self.proof is Some ==> self.state == StateModel::Verifying
    }

    /// After loading: from `Idle`, the image is taken in or its absence ends
    /// the run. In any other state nothing changes.
    pub open spec fn load(self, image: Result<Seq<u8>, Seq<char>>) -> PipelineModel {
        if self.state != StateModel::Idle {
            self
        } else {
            match image {
                Ok(bytes) => PipelineModel {
                    image: Some(bytes),
                    ..self.emptied(StateModel::Executing)
                },
                Err(cause) => self.failed(Stage::Load, cause),
            }
        }
    }

    /// After the program image has been handed out.
    pub open spec fn without_image(self) -> PipelineModel {
        PipelineModel { image: None, ..self }
    }

    /// After the engine has answered: from `Executing` with the image handed
    /// out, the finished run is taken in or the failure ends the run.
    /// Otherwise nothing changes.
    pub open spec fn record_execution(self, outcome: Result<CairoRunner, Seq<char>>) -> PipelineModel {
        if self.state != StateModel::Executing || self.image is Some {
            self
        } else {
            match outcome {
                Ok(run) => PipelineModel { run: Some(run), ..self.emptied(StateModel::Adapting) },
                Err(cause) => self.failed(Stage::Execute, cause),
            }
        }
    }

    /// After the finished run has been handed out.
    pub open spec fn without_run(self) -> PipelineModel {
        PipelineModel { run: None, ..self }
    }

    /// After the adapter has answered: from `Adapting` with the run handed
    /// out, the prover input is taken in or the failure ends the run.
    /// Otherwise nothing changes.
    pub open spec fn record_adaptation(self, outcome: Result<ProverInput, Seq<char>>) -> PipelineModel {
        if self.state != StateModel::Adapting || self.run is Some {
            self
        } else {
            match outcome {
                Ok(input) => PipelineModel {
                    input: Some(input),
                    ..self.emptied(StateModel::Proving)
                },
                Err(cause) => self.failed(Stage::Adapt, cause),
            }
        }
    }

    /// After the prover input has been handed out.
    pub open spec fn without_input(self) -> PipelineModel {
        PipelineModel { input: None, ..self }
    }

    /// After the prover has answered: from `Proving` with the input handed
    /// out, the proof is taken in or the failure ends the run. Otherwise
    /// nothing changes.
    pub open spec fn record_proof(self, outcome: Result<Proof, Seq<char>>) -> PipelineModel {
        if self.state != StateModel::Proving || self.input is Some {
            self
        } else {
            match outcome {
                Ok(proof) => PipelineModel {
                    proof: Some(proof),
                    ..self.emptied(StateModel::Verifying)
                },
                Err(cause) => self.failed(Stage::Prove, cause),
            }
        }
    }

    /// Whether the proof at hand names the configuration of the pipeline.
    pub open spec fn proof_fits(self) -> bool {
        self.proof matches Some(proof) && declared_configuration(proof) == self.proof_configuration
    }

    /// After the proof was asked for: a proof that names another
    /// configuration ends the run; one that fits is handed out.
    pub open spec fn begin_verifying(self) -> PipelineModel {
        if self.proof is Some && !self.proof_fits() {
            self.failed(Stage::Verify, CONFIGURATION_MISMATCH@)
        } else {
            PipelineModel { proof: None, ..self }
        }
    }

    /// After the verifier has answered: from `Verifying` with the proof handed
    /// out, the run is done where the proof was accepted, and failed where it
    /// was rejected. Otherwise nothing changes.
    pub open spec fn record_verdict(self, verdict: Result<(), Seq<char>>) -> PipelineModel {
        if self.state != StateModel::Verifying || self.proof is Some {
            self
        } else {
            match verdict {
                Ok(_) => self.emptied(StateModel::Done),
                Err(cause) => self.failed(Stage::Verify, cause),
            }
        }
    }
}

/// What the engine left behind, as the pipeline takes it in: the finished run
/// as it is, or the text of the engine's error.
pub fn execution_outcome(result: Result<CairoRunner, CairoRunError>) -> (r: Result<
    CairoRunner,
    String,
>)
    ensures
        match result {
            Ok(run) => r == Ok::<CairoRunner, String>(run),
            Err(error) => r matches Err(cause) && cause@ == text_of_failure(error),
        },
{
    match result {
        Ok(run) => Ok(run),
        Err(error) => Err(crate::engine::failure_text(&error)),
    }
}

/// The outcome of a stage that hands back a value or the cause of its failure.
pub open spec fn outcome_of<T>(result: Result<T, Seq<char>>) -> OutcomeModel {
    match result {
        Ok(_) => OutcomeModel::Completed,
        Err(cause) => OutcomeModel::Failed(cause),
    }
}

/// Every step of a pipeline is a step of the state machine: whatever is taken
/// in moves the state as `advance` moves it on the outcome of the awaited
/// stage, and in no other way.
pub proof fn lemma_pipeline_follows_the_state_machine(
    model: PipelineModel,
    image: Result<Seq<u8>, Seq<char>>,
    run: Result<CairoRunner, Seq<char>>,
    input: Result<ProverInput, Seq<char>>,
    proof: Result<Proof, Seq<char>>,
    verdict: Result<(), Seq<char>>,
)
    ensures
        model.load(image).state == (if model.state == StateModel::Idle {
            model.state.advance(outcome_of(image))
        } else {
            model.state
        }),
        model.record_execution(run).state == (if model.state == StateModel::Executing
            && model.image is None {
            model.state.advance(outcome_of(run))
        } else {
            model.state
        }),
        model.record_adaptation(input).state == (if model.state == StateModel::Adapting
            && model.run is None {
            model.state.advance(outcome_of(input))
        } else {
            model.state
        }),
        model.record_proof(proof).state == (if model.state == StateModel::Proving
            && model.input is None {
            model.state.advance(outcome_of(proof))
        } else {
            model.state
        }),
        model.record_verdict(verdict).state == (if model.state == StateModel::Verifying
            && model.proof is None {
            model.state.advance(outcome_of(verdict))
        } else {
            model.state
        }),
        model.state == StateModel::Verifying ==> model.begin_verifying().state == (if model.proof
            is Some && !model.proof_fits() {
            model.state.advance(OutcomeModel::Failed(CONFIGURATION_MISMATCH@))
        } else {
            model.state
        }),
{
}

impl View for Pipeline {
    type V = PipelineModel;

    closed spec fn view(&self) -> PipelineModel {
        let holding_nothing = PipelineModel {
            state: StateModel::Idle,
            proof_configuration: self.proof_configuration,
            image: None,
            run: None,
            input: None,
            proof: None,
        };
        match self.progress {
            Progress::Idle => holding_nothing,
            Progress::Executing(image) => PipelineModel {
                state: StateModel::Executing,
                image: match image {
                    Some(bytes) => Some(bytes@),
                    None => None,
                },
                ..holding_nothing
            },
            Progress::Adapting(run) => PipelineModel {
                state: StateModel::Adapting,
                run,
                ..holding_nothing
            },
            Progress::Proving(input) => PipelineModel {
                state: StateModel::Proving,
                input,
                ..holding_nothing
            },
            Progress::Verifying(proof) => PipelineModel {
                state: StateModel::Verifying,
                proof,
                ..holding_nothing
            },
            Progress::Done => PipelineModel { state: StateModel::Done, ..holding_nothing },
            Progress::Failed(error) => PipelineModel {
                state: StateModel::Failed(error@),
                ..holding_nothing
            },
        }
    }
}

impl Pipeline {
    /// A run under the pipeline's own proof configuration, not yet begun.
    pub fn new() -> (r: Pipeline)
        ensures
            r@.state == StateModel::Idle,
            r@.proof_configuration == standard_proof_configuration(),
            r@ == r@.emptied(StateModel::Idle),
    {
        Pipeline { proof_configuration: ProofConfiguration::standard(), progress: Progress::Idle }
    }

    /// A run under the given proof configuration, not yet begun.
    pub fn with_configuration(proof_configuration: ProofConfiguration) -> (r: Pipeline)
        ensures
            r@.state == StateModel::Idle,
            r@.proof_configuration == proof_configuration,
            r@ == r@.emptied(StateModel::Idle),
    {
        Pipeline { proof_configuration, progress: Progress::Idle }
    }

    /// Every pipeline holds nothing but the artifact that its state awaits.
    pub proof fn lemma_consistent(&self)
        ensures
            self@.consistent(),
    {
    }

    pub fn state(&self) -> (r: PipelineState)
        ensures
            r@ == self@.state,
    {
        match &self.progress {
            Progress::Idle => PipelineState::Idle,
            Progress::Executing(_) => PipelineState::Executing,
            Progress::Adapting(_) => PipelineState::Adapting,
            Progress::Proving(_) => PipelineState::Proving,
            Progress::Verifying(_) => PipelineState::Verifying,
            Progress::Done => PipelineState::Done,
            Progress::Failed(error) => PipelineState::Failed(
                PipelineError::new(error.stage, error.message.clone()),
            ),
        }
    }

    pub fn next_action(&self) -> (r: Action)
        ensures
            r == self@.state.next_action(),
    {
        match &self.progress {
            Progress::Idle => Action::Run(Stage::Load),
            Progress::Executing(_) => Action::Run(Stage::Execute),
            Progress::Adapting(_) => Action::Run(Stage::Adapt),
            Progress::Proving(_) => Action::Run(Stage::Prove),
            Progress::Verifying(_) => Action::Run(Stage::Verify),
            Progress::Done => Action::ReportSuccess,
            Progress::Failed(_) => Action::ReportFailure,
        }
    }

    /// A run under the given proof configuration that has come as far as
    /// `progress`.
    fn at(proof_configuration: ProofConfiguration, progress: Progress) -> (r: Pipeline)
        ensures
            r == (Pipeline { proof_configuration, progress }),
    {
        Pipeline { proof_configuration, progress }
    }

    /// Takes in the program image, or the reason why there is none.
    pub fn load(self, image: Result<Vec<u8>, String>) -> (r: Pipeline)
        ensures
            r@ == self@.load(
                match image {
                    Ok(bytes) => Ok(bytes@),
                    Err(cause) => Err(cause@),
                },
            ),
    {
        match self.progress {
            Progress::Idle => {
                let progress = match image {
                    Ok(bytes) => Progress::Executing(Some(bytes)),
                    Err(cause) => Progress::Failed(PipelineError::new(Stage::Load, cause)),
                };
                Pipeline::at(self.proof_configuration, progress)
            },
            _ => self,
        }
    }

    /// Takes in the embedded program.
    pub fn load_embedded(self) -> (r: Pipeline)
        ensures
            r@ == self@.load(Ok(PROGRAM_JSON.spec_bytes())),
    {
        self.load(Ok(slice_to_vec(program_image())))
    }

    /// Hands out the program image for execution, once: a second call, or a
    /// call in any state but `Executing`, gives nothing.
    pub fn begin_executing(self) -> (r: (Pipeline, Option<Vec<u8>>))
        ensures
            match r.1 {
                Some(bytes) => self@.image == Some(bytes@),
                None => self@.image is None,
            },
            r.0@ == self@.without_image(),
    {
        match self.progress {
            Progress::Executing(image) => (
                Pipeline::at(self.proof_configuration, Progress::Executing(None)),
                image,
            ),
            _ => (self, None),
        }
    }

    /// Takes in what the engine made of the image that was handed out: the
    /// finished run, or the reason why there is none.
    pub fn record_execution(self, outcome: Result<CairoRunner, String>) -> (r: Pipeline)
        ensures
            r@ == self@.record_execution(
                match outcome {
                    Ok(run) => Ok(run),
                    Err(cause) => Err(cause@),
                },
            ),
    {
        match self.progress {
            Progress::Executing(None) => {
                let progress = match outcome {
                    Ok(run) => Progress::Adapting(Some(run)),
                    Err(cause) => Progress::Failed(PipelineError::new(Stage::Execute, cause)),
                };
                Pipeline::at(self.proof_configuration, progress)
            },
            _ => self,
        }
    }

    /// Hands out the finished run for adaptation, once: a second call, or a
    /// call in any state but `Adapting`, gives nothing.
    pub fn begin_adapting(self) -> (r: (Pipeline, Option<CairoRunner>))
        ensures
            r.1 == self@.run,
            r.0@ == self@.without_run(),
    {
        match self.progress {
            Progress::Adapting(run) => (Pipeline::at(self.proof_configuration, Progress::Adapting(None)), run),
            _ => (self, None),
        }
    }

    /// Takes in what the adapter made of the run that was handed out: the
    /// prover input, or the reason why there is none.
    pub fn record_adaptation(self, outcome: Result<ProverInput, String>) -> (r: Pipeline)
        ensures
            r@ == self@.record_adaptation(
                match outcome {
                    Ok(input) => Ok(input),
                    Err(cause) => Err(cause@),
                },
            ),
    {
        match self.progress {
            Progress::Adapting(None) => {
                let progress = match outcome {
                    Ok(input) => Progress::Proving(Some(input)),
                    Err(cause) => Progress::Failed(PipelineError::new(Stage::Adapt, cause)),
                };
                Pipeline::at(self.proof_configuration, progress)
            },
            _ => self,
        }
    }

    /// Hands out the prover input, once: a second call, or a call in any state
    /// but `Proving`, gives nothing.
    pub fn begin_proving(self) -> (r: (Pipeline, Option<ProverInput>))
        ensures
            r.1 == self@.input,
            r.0@ == self@.without_input(),
    {
        match self.progress {
            Progress::Proving(input) => (Pipeline::at(self.proof_configuration, Progress::Proving(None)), input),
            _ => (self, None),
        }
    }

    /// Takes in what the prover made of the input that was handed out: the
    /// proof, or the reason why there is none.
    pub fn record_proof(self, outcome: Result<Proof, String>) -> (r: Pipeline)
        ensures
            r@ == self@.record_proof(
                match outcome {
                    Ok(proof) => Ok(proof),
                    Err(cause) => Err(cause@),
                },
            ),
    {
        match self.progress {
            Progress::Proving(None) => {
                let progress = match outcome {
                    Ok(proof) => Progress::Verifying(Some(proof)),
                    Err(cause) => Progress::Failed(PipelineError::new(Stage::Prove, cause)),
                };
                Pipeline::at(self.proof_configuration, progress)
            },
            _ => self,
        }
    }

    /// Hands out the proof for verification, once, and only a proof that names
    /// the proof configuration of the pipeline: one that names another ends
    /// the run in `Failed` at the verification stage, and nothing is handed
    /// out. A second call, or a call in any state but `Verifying`, gives
    /// nothing.
    pub fn begin_verifying(self) -> (r: (Pipeline, Option<Proof>))
        ensures
            r.1 == (if self@.proof_fits() {
                self@.proof
            } else {
                None
            }),
            r.0@ == self@.begin_verifying(),
    {
        match self.progress {
            Progress::Verifying(Some(proof)) => {
                let declared = ProofConfiguration {
                    variant: crate::engine::declared_variant(&proof),
                    commitment: crate::engine::declared_commitment(&proof),
                };
                if declared.same_as(&self.proof_configuration) {
                    (Pipeline::at(self.proof_configuration, Progress::Verifying(None)), Some(proof))
                } else {
                    let error = PipelineError::new(
                        Stage::Verify,
                        CONFIGURATION_MISMATCH.to_owned(),
                    );
                    (Pipeline::at(self.proof_configuration, Progress::Failed(error)), None)
                }
            },
            _ => (self, None),
        }
    }

    /// Takes in what the verifier said of the proof that was handed out: that
    /// it accepts it, or why it does not.
    pub fn record_verdict(self, verdict: Result<(), String>) -> (r: Pipeline)
        ensures
            r@ == self@.record_verdict(
                match verdict {
                    Ok(_) => Ok(()),
                    Err(cause) => Err(cause@),
                },
            ),
    {
        match self.progress {
            Progress::Verifying(None) => {
                let progress = match verdict {
                    Ok(_) => Progress::Done,
                    Err(cause) => Progress::Failed(PipelineError::new(Stage::Verify, cause)),
                };
                Pipeline::at(self.proof_configuration, progress)
            },
            _ => self,
        }
    }

    /// What the run has to report: nothing while a stage is awaited, success
    /// in `Done`, the error in `Failed`.
    pub fn report(self) -> (r: Option<Result<(), PipelineError>>)
        ensures
            r is None <==> !self@.state.is_terminal(),
            r matches Some(Ok(_)) <==> self@.state == StateModel::Done,
            r matches Some(Err(error)) ==> self@.state == StateModel::Failed(error@),
    {
        match self.progress {
            Progress::Done => Some(Ok(())),
            Progress::Failed(error) => Some(Err(error)),
            _ => None,
        }
    }
}

/// Whether `outcome` is what the engine has returned on the embedded program
/// under the pipeline's run configuration.
pub open spec fn embedded_run(outcome: Result<CairoRunner, CairoRunError>) -> bool {
    engine_returned(PROGRAM_JSON.spec_bytes(), standard_run_configuration(), outcome)
}

/// Runs the embedded program under the pipeline's run configuration and hands
/// back what the engine returned, as it is.
pub fn run_cairo_program() -> (r: Result<CairoRunner, CairoRunError>)
    ensures
        embedded_run(r),
{
    let configuration = RunConfiguration::standard();
    crate::engine::execute(program_image(), &configuration)
}

/// Whether `message` is the cause for which `proof` fails verification under
/// the pipeline's proof configuration: that it names another configuration,
/// or else what `verify` said against it.
pub open spec fn rejected<V>(verify: V, proof: Proof, message: Seq<char>) -> bool where
    V: FnOnce(Proof) -> Result<(), String>,
 {
    if declared_configuration(proof) != standard_proof_configuration() {
        message == CONFIGURATION_MISMATCH@
    } else {
        exists|cause: String| #[trigger] verify.ensures((proof,), Err(cause)) && cause@ == message
    }
}

/// Whether `verify` accepted `proof`.
pub open spec fn accepted<V>(verify: V, proof: Proof) -> bool where
    V: FnOnce(Proof) -> Result<(), String>,
 {
    exists|verdict: Result<(), String>| verdict is Ok && #[trigger] verify.ensures((proof,), verdict)
}

/// What `run_prove_and_verify` owes where it reports `error`: the stage named
/// is the first that failed, every stage before it succeeded on what the
/// stage before that gave, and the message is the failed stage's own.
pub open spec fn reported_failure<A, P, V>(adapt: A, prove: P, verify: V, error: ErrorModel) -> bool where
    A: FnOnce(CairoRunner) -> Result<ProverInput, String>,
    P: FnOnce(ProverInput) -> Result<Proof, String>,
    V: FnOnce(Proof) -> Result<(), String>,
 {
    match error.stage {
        Stage::Load => false,
        Stage::Execute => exists|failure: CairoRunError|
            embedded_run(Err(failure)) && error.message == #[trigger] text_of_failure(failure),
        Stage::Adapt => exists|run: CairoRunner, cause: String|
            embedded_run(Ok(run)) && #[trigger] adapt.ensures((run,), Err(cause)) && cause@
                == error.message,
        Stage::Prove => exists|run: CairoRunner, input: ProverInput, cause: String|
            embedded_run(Ok(run)) && #[trigger] adapt.ensures((run,), Ok(input))
                && #[trigger] prove.ensures((input,), Err(cause)) && cause@ == error.message,
        Stage::Verify => exists|run: CairoRunner, input: ProverInput, proof: Proof|
            embedded_run(Ok(run)) && #[trigger] adapt.ensures((run,), Ok(input))
                && #[trigger] prove.ensures((input,), Ok(proof)) && rejected(
                verify,
                proof,
                error.message,
            ),
    }
}

/// What `run_prove_and_verify` owes where it reports success: every stage
/// succeeded, each on what the stage before it gave, beginning with the run of
/// the embedded program, and the proof that `verify` accepted names the
/// pipeline's proof configuration.
pub open spec fn reported_success<A, P, V>(adapt: A, prove: P, verify: V) -> bool where
    A: FnOnce(CairoRunner) -> Result<ProverInput, String>,
    P: FnOnce(ProverInput) -> Result<Proof, String>,
    V: FnOnce(Proof) -> Result<(), String>,
 {
    exists|run: CairoRunner, input: ProverInput, proof: Proof|
        embedded_run(Ok(run)) && #[trigger] adapt.ensures((run,), Ok(input))
            && #[trigger] prove.ensures((input,), Ok(proof)) && declared_configuration(proof)
            == standard_proof_configuration() && accepted(verify, proof)
}

/// Runs the whole pipeline on the embedded program: executes it, has `adapt`
/// turn the finished run into prover input, has `prove` make the proof, and
/// has `verify` check it. Each of the three is called at most once, and only
/// after every stage before it has succeeded; the first stage that fails ends
/// the run and is reported with its own message. The run succeeds only where
/// `verify` accepted the proof.
pub fn run_prove_and_verify<A, P, V>(adapt: A, prove: P, verify: V) -> (r: Result<
    (),
    PipelineError,
>) where
    A: FnOnce(CairoRunner) -> Result<ProverInput, String>,
    P: FnOnce(ProverInput) -> Result<Proof, String>,
    V: FnOnce(Proof) -> Result<(), String>,

    requires
        forall|run: CairoRunner| adapt.requires((run,)),
        forall|input: ProverInput| prove.requires((input,)),
        forall|proof: Proof| verify.requires((proof,)),
    ensures
        match r {
            Ok(_) => reported_success(adapt, prove, verify),
            Err(error) => reported_failure(adapt, prove, verify, error@),
        },
{
    let (pipeline, image) = Pipeline::new().load_embedded().begin_executing();
    let pipeline = match image {
        Some(image) => {
            let configuration = RunConfiguration::standard();
            let outcome = crate::engine::execute(image.as_slice(), &configuration);
            pipeline.record_execution(execution_outcome(outcome))
        },
        None => pipeline,
    };
    let (pipeline, run) = pipeline.begin_adapting();
    let pipeline = match run {
        Some(run) => {
            let outcome = adapt(run);
            pipeline.record_adaptation(outcome)
        },
        None => pipeline,
    };
    let (pipeline, input) = pipeline.begin_proving();
    let pipeline = match input {
        Some(input) => {
            let outcome = prove(input);
            pipeline.record_proof(outcome)
        },
        None => pipeline,
    };
    let (pipeline, fitting) = pipeline.begin_verifying();
    let pipeline = match fitting {
        Some(fitting) => {
            let verdict = verify(fitting);
            pipeline.record_verdict(verdict)
        },
        None => pipeline,
    };
    match pipeline.report() {
        Some(report) => report,
        None => vstd::pervasive::unreached(),
    }
}

} // verus!
