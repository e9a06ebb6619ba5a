//! The orchestrator as a state machine: which stage a run is in, what it does
//! next, and where the outcome of a stage takes it.

use vstd::prelude::*;

use crate::stage::{ErrorModel, PipelineError, Stage};

verus! {

/// How one stage ended, as the contracts see it.
pub enum OutcomeModel {
    Completed,
    Failed(Seq<char>),
}

/// How one stage ended: it completed, or it failed with a cause.
#[derive(Clone, Debug, PartialEq, Eq)]
pub enum StageOutcome {
    Completed,
    Failed(String),
}

impl View for StageOutcome {
    type V = OutcomeModel;

    open spec fn view(&self) -> OutcomeModel {
        match self {
            StageOutcome::Completed => OutcomeModel::Completed,
            StageOutcome::Failed(cause) => OutcomeModel::Failed(cause@),
        }
    }
}

/// What the orchestrator does next.
#[derive(Clone, Copy, Debug, PartialEq, Eq, Structural)]
pub enum Action {
    /// Invoke the given stage.
    Run(Stage),
    /// The run is done: signal success.
    ReportSuccess,
    /// The run has failed: report the error.
    ReportFailure,
}

/// The state of a run, as the contracts see it.
pub enum StateModel {
    Idle,
    Executing,
    Adapting,
    Proving,
    Verifying,
    Done,
    Failed(ErrorModel),
}

/// The state of a run. `Idle` awaits the program image; each of the next four
/// states awaits the outcome of its stage; `Done` and `Failed` are final.
#[derive(Clone, Debug, PartialEq, Eq)]
pub enum PipelineState {
    Idle,
    Executing,
    Adapting,
    Proving,
    Verifying,
    Done,
    Failed(PipelineError),
}

impl View for PipelineState {
    type V = StateModel;

    open spec fn view(&self) -> StateModel {
        match self {
            PipelineState::Idle => StateModel::Idle,
            PipelineState::Executing => StateModel::Executing,
            PipelineState::Adapting => StateModel::Adapting,
            PipelineState::Proving => StateModel::Proving,
            PipelineState::Verifying => StateModel::Verifying,
            PipelineState::Done => StateModel::Done,
            PipelineState::Failed(error) => StateModel::Failed(error@),
        }
    }
}

/// The state a run enters when `stage` completes.
pub open spec fn entered_after(stage: Stage) -> StateModel {
    match stage {
        Stage::Load => StateModel::Executing,
        Stage::Execute => StateModel::Adapting,
        Stage::Adapt => StateModel::Proving,
        Stage::Prove => StateModel::Verifying,
        Stage::Verify => StateModel::Done,
    }
}

impl StateModel {
    /// The stage whose outcome the state awaits; none in a final state.
    pub open spec fn active_stage(self) -> Option<Stage> {
        match self {
            StateModel::Idle => Some(Stage::Load),
            StateModel::Executing => Some(Stage::Execute),
            StateModel::Adapting => Some(Stage::Adapt),
            StateModel::Proving => Some(Stage::Prove),
            StateModel::Verifying => Some(Stage::Verify),
            StateModel::Done => None,
            StateModel::Failed(_) => None,
        }
    }

    pub open spec fn is_terminal(self) -> bool {
        self.active_stage() is None
    }

    /// How far the run has come: the rank of the awaited stage, and five in a
    /// final state.
    pub open spec fn progress(self) -> nat {
        match self.active_stage() {
            Some(stage) => stage.rank(),
            None => 5,
        }
    }

    /// The state after the awaited stage ended with `outcome`. A final state
    /// stays as it is.
    pub open spec fn advance(self, outcome: OutcomeModel) -> StateModel {
        match self.active_stage() {
            None => self,
            Some(stage) => match outcome {
                OutcomeModel::Completed => entered_after(stage),
                OutcomeModel::Failed(cause) => StateModel::Failed(
                    ErrorModel { stage, message: cause },
                ),
            },
        }
    }

    pub open spec fn next_action(self) -> Action {
        match self {
            StateModel::Done => Action::ReportSuccess,
            StateModel::Failed(_) => Action::ReportFailure,
            _ => Action::Run(self.active_stage()->Some_0),
        }
    }

    /// The state after the outcomes have been taken in, first to last.
    pub open spec fn run(self, outcomes: Seq<OutcomeModel>) -> StateModel
        decreases outcomes.len(),
    {
        if outcomes.len() == 0 {
            self
        } else {
            self.advance(outcomes[0]).run(outcomes.drop_first())
        }
    }

    /// The actions taken along that run: one before each outcome and one after
    /// the last.
    pub open spec fn actions(self, outcomes: Seq<OutcomeModel>) -> Seq<Action>
        decreases outcomes.len(),
    {
        if outcomes.len() == 0 {
            seq![self.next_action()]
        } else {
            seq![self.next_action()] + self.advance(outcomes[0]).actions(outcomes.drop_first())
        }
    }
}

impl PipelineState {
    /// The state in which every run begins.
    pub fn start() -> (r: PipelineState)
        ensures
            r@ == StateModel::Idle,
    {
        PipelineState::Idle
    }

    pub fn active_stage(&self) -> (r: Option<Stage>)
        ensures
            r == self@.active_stage(),
    {
        match self {
            PipelineState::Idle => Some(Stage::Load),
            PipelineState::Executing => Some(Stage::Execute),
            PipelineState::Adapting => Some(Stage::Adapt),
            PipelineState::Proving => Some(Stage::Prove),
            PipelineState::Verifying => Some(Stage::Verify),
            PipelineState::Done => None,
            PipelineState::Failed(_) => None,
        }
    }

    pub fn is_terminal(&self) -> (r: bool)
        ensures
            r == self@.is_terminal(),
    {
        self.active_stage().is_none()
    }

    pub fn next_action(&self) -> (r: Action)
        ensures
            r == self@.next_action(),
    {
        match self {
            PipelineState::Idle => Action::Run(Stage::Load),
            PipelineState::Executing => Action::Run(Stage::Execute),
            PipelineState::Adapting => Action::Run(Stage::Adapt),
            PipelineState::Proving => Action::Run(Stage::Prove),
            PipelineState::Verifying => Action::Run(Stage::Verify),
            PipelineState::Done => Action::ReportSuccess,
            PipelineState::Failed(_) => Action::ReportFailure,
        }
    }

    /// Takes in the outcome of the awaited stage.
    pub fn advance(self, outcome: StageOutcome) -> (r: PipelineState)
        ensures
            r@ == self@.advance(outcome@),
    {
        match self.active_stage() {
            None => self,
            Some(stage) => match outcome {
                StageOutcome::Failed(cause) => PipelineState::Failed(
                    PipelineError::new(stage, cause),
                ),
                StageOutcome::Completed => match stage {
                    Stage::Load => PipelineState::Executing,
                    Stage::Execute => PipelineState::Adapting,
                    Stage::Adapt => PipelineState::Proving,
                    Stage::Prove => PipelineState::Verifying,
                    Stage::Verify => PipelineState::Done,
                },
            },
        }
    }

    /// What the run has to report: nothing while a stage is awaited, success
    /// in `Done`, the error in `Failed`.
    pub fn report(self) -> (r: Option<Result<(), PipelineError>>)
        ensures
            r is None <==> !self@.is_terminal(),
            r matches Some(Ok(_)) <==> self@ == StateModel::Done,
            r matches Some(Err(error)) ==> self@ == StateModel::Failed(error@),
    {
        match self {
            PipelineState::Done => Some(Ok(())),
            PipelineState::Failed(error) => Some(Err(error)),
            _ => None,
        }
    }
}

/// The state that awaits the stage of rank `k`, and `Done` from five on.
pub open spec fn state_at(k: nat) -> StateModel {
    if k == 0 {
        StateModel::Idle
    } else if k == 1 {
        StateModel::Executing
    } else if k == 2 {
        StateModel::Adapting
    } else if k == 3 {
        StateModel::Proving
    } else if k == 4 {
        StateModel::Verifying
    } else {
        StateModel::Done
    }
}

/// A final state takes in any outcomes without changing.
pub proof fn lemma_terminal_state_stays(state: StateModel, outcomes: Seq<OutcomeModel>)
    requires
        state.is_terminal(),
    ensures
        state.run(outcomes) == state,
    decreases outcomes.len(),
{
    if outcomes.len() > 0 {
        lemma_terminal_state_stays(state, outcomes.drop_first());
    }
}

/// Taking in one outcome never moves a run backwards, and a completed stage
/// moves it forward by exactly one stage.
pub proof fn lemma_advance_is_sequential(state: StateModel, outcome: OutcomeModel)
    ensures
        state.advance(outcome).progress() >= state.progress(),
        !state.is_terminal() && outcome is Completed ==> state.advance(outcome) == state_at(
            state.progress() + 1,
        ),
        !state.is_terminal() && outcome is Failed ==> state.advance(outcome) == StateModel::Failed(
            ErrorModel { stage: state.active_stage()->Some_0, message: outcome->Failed_0 },
        ),
{
}

/// While every stage completes, a run from `state_at(k)` reaches
/// `state_at(k + n)` after `n` outcomes.
pub proof fn lemma_completed_stages(k: nat, outcomes: Seq<OutcomeModel>)
    requires
        forall|i: int| 0 <= i < outcomes.len() ==> outcomes[i] is Completed,
    ensures
        state_at(k).run(outcomes) == state_at(k + outcomes.len()),
    decreases outcomes.len(),
{
    if outcomes.len() > 0 {
        let rest = outcomes.drop_first();
        assert(outcomes[0] is Completed);
        assert forall|i: int| 0 <= i < rest.len() implies rest[i] is Completed by {
            assert(rest[i] == outcomes[i + 1]);
        }
        lemma_completed_stages(k + 1, rest);
    }
}

/// A run in which all five stages complete ends in `Done`.
pub proof fn lemma_unbroken_run_is_done(outcomes: Seq<OutcomeModel>)
    requires
        outcomes.len() >= 5,
        forall|i: int| 0 <= i < 5 ==> outcomes[i] is Completed,
    ensures
        StateModel::Idle.run(outcomes) == StateModel::Done,
{
    let head = outcomes.subrange(0, 5);
    let tail = outcomes.subrange(5, outcomes.len() as int);
    assert(outcomes == head + tail);
    lemma_run_in_two_parts(StateModel::Idle, head, tail);
    assert forall|i: int| 0 <= i < head.len() implies head[i] is Completed by {
        assert(head[i] == outcomes[i]);
    }
    lemma_completed_stages(0, head);
    lemma_terminal_state_stays(StateModel::Done, tail);
}

/// Taking in `first` and then `second` is taking in the two joined.
pub proof fn lemma_run_in_two_parts(
    state: StateModel,
    first: Seq<OutcomeModel>,
    second: Seq<OutcomeModel>,
)
    ensures
        state.run(first + second) == state.run(first).run(second),
    decreases first.len(),
{
    if first.len() == 0 {
        assert(first + second == second);
    } else {
        let joined = first + second;
        assert(joined[0] == first[0]);
        assert(joined.drop_first() == first.drop_first() + second);
        lemma_run_in_two_parts(state.advance(first[0]), first.drop_first(), second);
    }
}

/// The first failure decides the run: if the stage of rank `k` is the first to
/// fail, the run ends in `Failed` with that stage and its cause, whatever
/// outcomes follow.
pub proof fn lemma_first_failure_decides(outcomes: Seq<OutcomeModel>, k: nat, stage: Stage)
    requires
        k < outcomes.len(),
        stage.rank() == k,
        outcomes[k as int] is Failed,
        forall|i: int| 0 <= i < k ==> outcomes[i] is Completed,
    ensures
        StateModel::Idle.run(outcomes) == StateModel::Failed(
            ErrorModel { stage, message: outcomes[k as int]->Failed_0 },
        ),
{
    let head = outcomes.subrange(0, k as int);
    let tail = outcomes.subrange(k as int, outcomes.len() as int);
    assert(outcomes == head + tail);
    lemma_run_in_two_parts(StateModel::Idle, head, tail);
    assert forall|i: int| 0 <= i < head.len() implies head[i] is Completed by {
        assert(head[i] == outcomes[i]);
    }
    lemma_completed_stages(0, head);
    assert(tail[0] == outcomes[k as int]);
    let failed = state_at(k).advance(tail[0]);
    assert(state_at(k).active_stage() == Some(stage));
    lemma_terminal_state_stays(failed, tail.drop_first());
}

/// The `i`-th action of a run invokes a stage only if that stage lies exactly
/// `i` stages beyond where the run began.
pub proof fn lemma_action_rank(state: StateModel, outcomes: Seq<OutcomeModel>, i: int)
    requires
        0 <= i <= outcomes.len(),
    ensures
        state.actions(outcomes).len() == outcomes.len() + 1,
        state.actions(outcomes)[i] matches Action::Run(stage) ==> stage.rank() == state.progress()
            + i,
    decreases outcomes.len(),
{
    lemma_actions_len(state, outcomes);
    if i > 0 {
        let next = state.advance(outcomes[0]);
        let rest = outcomes.drop_first();
        lemma_actions_len(next, rest);
        lemma_action_rank(next, rest, i - 1);
        assert(state.actions(outcomes)[i] == next.actions(rest)[i - 1]);
    }
}

/// A run takes one action before each outcome and one after the last.
pub proof fn lemma_actions_len(state: StateModel, outcomes: Seq<OutcomeModel>)
    ensures
        state.actions(outcomes).len() == outcomes.len() + 1,
    decreases outcomes.len(),
{
    if outcomes.len() > 0 {
        lemma_actions_len(state.advance(outcomes[0]), outcomes.drop_first());
    }
}

/// Stages are invoked strictly in order: of two invocations in one run, the
/// later one is of a later stage. So no stage is invoked twice, and none is
/// retried.
pub proof fn lemma_stages_run_in_order(
    state: StateModel,
    outcomes: Seq<OutcomeModel>,
    i: int,
    j: int,
)
    requires
        0 <= i < j <= outcomes.len(),
        state.actions(outcomes)[i] is Run,
        state.actions(outcomes)[j] is Run,
    ensures
        state.actions(outcomes)[i]->Run_0.rank() < state.actions(outcomes)[j]->Run_0.rank(),
{
    lemma_action_rank(state, outcomes, i);
    lemma_action_rank(state, outcomes, j);
}

/// Once a run is in a final state every action reports, and none invokes a
/// stage.
pub proof fn lemma_terminal_state_only_reports(
    state: StateModel,
    outcomes: Seq<OutcomeModel>,
    i: int,
)
    requires
        state.is_terminal(),
        0 <= i <= outcomes.len(),
    ensures
        state.actions(outcomes)[i] == state.next_action(),
        !(state.actions(outcomes)[i] is Run),
    decreases outcomes.len(),
{
    if i > 0 {
        let rest = outcomes.drop_first();
        lemma_actions_len(state, rest);
        lemma_terminal_state_only_reports(state, rest, i - 1);
        assert(state.actions(outcomes)[i] == state.actions(rest)[i - 1]);
    }
}

/// A failure is fatal: where the awaited stage fails, the run ends in `Failed`
/// with that stage and cause whatever is reported afterwards, and every action
/// after the failure is the report of it.
pub proof fn lemma_failure_is_fatal(
    state: StateModel,
    cause: Seq<char>,
    later: Seq<OutcomeModel>,
    i: int,
)
    requires
        !state.is_terminal(),
        1 <= i <= later.len() + 1,
    ensures
        state.run(seq![OutcomeModel::Failed(cause)] + later) == StateModel::Failed(
            ErrorModel { stage: state.active_stage()->Some_0, message: cause },
        ),
        state.actions(seq![OutcomeModel::Failed(cause)] + later)[i] == Action::ReportFailure,
{
    let outcomes = seq![OutcomeModel::Failed(cause)] + later;
    let failed = state.advance(OutcomeModel::Failed(cause));
    assert(outcomes[0] == OutcomeModel::Failed(cause));
    assert(outcomes.drop_first() == later);
    lemma_terminal_state_stays(failed, later);
    lemma_actions_len(failed, later);
    lemma_terminal_state_only_reports(failed, later, i - 1);
    assert(state.actions(outcomes)[i] == failed.actions(later)[i - 1]);
}

/// A failed execution ends the run: the run is `Failed` at the execution stage
/// with the engine's cause, whatever is reported afterwards, and every action
/// after the failure is the report of it. Neither adaptation nor proving nor
/// verification is invoked.
pub proof fn lemma_failed_execution_ends_the_run(
    cause: Seq<char>,
    later: Seq<OutcomeModel>,
    i: int,
)
    requires
        1 <= i <= later.len() + 1,
    ensures
        StateModel::Executing.run(seq![OutcomeModel::Failed(cause)] + later) == StateModel::Failed(
            ErrorModel { stage: Stage::Execute, message: cause },
        ),
        StateModel::Executing.actions(seq![OutcomeModel::Failed(cause)] + later)[i]
            == Action::ReportFailure,
        StateModel::Executing.actions(seq![OutcomeModel::Failed(cause)] + later)[i] != Action::Run(
            Stage::Adapt,
        ),
        StateModel::Executing.actions(seq![OutcomeModel::Failed(cause)] + later)[i] != Action::Run(
            Stage::Prove,
        ),
        StateModel::Executing.actions(seq![OutcomeModel::Failed(cause)] + later)[i] != Action::Run(
            Stage::Verify,
        ),
{
    lemma_failure_is_fatal(StateModel::Executing, cause, later, i);
}

} // verus!
