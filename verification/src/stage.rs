//! The stages of a pipeline run and the error a failed stage leaves behind.

use vstd::prelude::*;

verus! {

/// A stage of the pipeline, in the order in which a run passes through them.
#[derive(Clone, Copy, Debug, PartialEq, Eq, Hash, Structural)]
pub enum Stage {
    Load,
    Execute,
    Adapt,
    Prove,
    Verify,
}

impl Stage {
    /// The position of the stage in a run, counted from zero.
    pub open spec fn rank(self) -> nat {
        match self {
            Stage::Load => 0,
            Stage::Execute => 1,
            Stage::Adapt => 2,
            Stage::Prove => 3,
            Stage::Verify => 4,
        }
    }

    /// The name of the stage, as it stands in what a run reports.
    pub open spec fn spec_name(self) -> Seq<char> {
        match self {
            Stage::Load => "load"@,
            Stage::Execute => "execution"@,
            Stage::Adapt => "adaptation"@,
            Stage::Prove => "proving"@,
            Stage::Verify => "verification"@,
        }
    }

    pub fn name(self) -> (r: &'static str)
        ensures
            r@ == self.spec_name(),
    {
        match self {
            Stage::Load => "load",
            Stage::Execute => "execution",
            Stage::Adapt => "adaptation",
            Stage::Prove => "proving",
            Stage::Verify => "verification",
        }
    }

    pub fn index(self) -> (r: u8)
        ensures
            r == self.rank(),
    {
        match self {
            Stage::Load => 0,
            Stage::Execute => 1,
            Stage::Adapt => 2,
            Stage::Prove => 3,
            Stage::Verify => 4,
        }
    }
}

/// What a contract says of a `PipelineError`: the stage and the text of the cause.
pub struct ErrorModel {
    pub stage: Stage,
    pub message: Seq<char>,
}

/// The single error a run reports: the stage that failed and why.
#[derive(Clone, Debug, PartialEq, Eq)]
pub struct PipelineError {
    pub stage: Stage,
    pub message: String,
}

impl View for PipelineError {
    type V = ErrorModel;

    open spec fn view(&self) -> ErrorModel {
        ErrorModel { stage: self.stage, message: self.message@ }
    }
}

impl PipelineError {
    pub fn new(stage: Stage, message: String) -> (r: PipelineError)
        ensures
            r@ == (ErrorModel { stage, message: message@ }),
    {
        PipelineError { stage, message }
    }
}

} // verus!
