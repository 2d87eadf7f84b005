//! Per-(project, stage) results: how one external process ended, and the
//! outcome recorded for it.

use vstd::prelude::*;

use crate::strutil::{i32_dec, spec_idec};

verus! {

/// The ghost image of a `ProcessResult`.
pub enum ProcessResultView {
    SpawnFailed(Seq<char>),
    Exited(int),
    Signaled,
}

/// How one spawned external command ended, as the surrounding shell reports
/// it: it could not be launched at all, it exited with a code, or it was
/// killed before producing one.
#[derive(Debug, Clone, PartialEq, Eq)]
pub enum ProcessResult {
    SpawnFailed(String),
    Exited(i32),
    Signaled,
}

impl View for ProcessResult {
    type V = ProcessResultView;

    open spec fn view(&self) -> ProcessResultView {
        match self {
            ProcessResult::SpawnFailed(m) => ProcessResultView::SpawnFailed(m@),
            ProcessResult::Exited(c) => ProcessResultView::Exited(*c as int),
            ProcessResult::Signaled => ProcessResultView::Signaled,
        }
    }
}

/// The ghost image of a `StageOutcome`.
pub enum OutcomeView {
    Succeeded,
    Failed(Seq<char>),
    Skipped(Seq<char>),
}

/// The recorded result of attempting one stage for one project.
#[derive(Debug, Clone, PartialEq, Eq)]
pub enum StageOutcome {
    Succeeded,
    Failed(String),
    Skipped(String),
}

impl View for StageOutcome {
    type V = OutcomeView;

    open spec fn view(&self) -> OutcomeView {
        match self {
            StageOutcome::Succeeded => OutcomeView::Succeeded,
            StageOutcome::Failed(m) => OutcomeView::Failed(m@),
            StageOutcome::Skipped(m) => OutcomeView::Skipped(m@),
        }
    }
}

/// The outcome recorded for a process that ended as `r`: exit code zero is
/// success, any other ending is a failure with the reason spelled out. A
/// process result never yields `Skipped`; skipping is decided by the
/// orchestrator alone, without spawning.
pub open spec fn spec_outcome(r: ProcessResultView) -> OutcomeView {
    match r {
        ProcessResultView::SpawnFailed(m) => OutcomeView::Failed(m),
        ProcessResultView::Exited(c) => if c == 0 {
            OutcomeView::Succeeded
        } else {
            OutcomeView::Failed("exited with code "@ + spec_idec(c))
        },
        ProcessResultView::Signaled => OutcomeView::Failed("terminated without exit code"@),
    }
}

/// A process result always classifies to success or failure: skipping is the
/// orchestrator's decision, never a process's.
pub proof fn lemma_outcome_decisive(r: ProcessResultView)
    ensures
        !(spec_outcome(r) is Skipped),
        spec_outcome(r) is Succeeded || spec_outcome(r) is Failed,
{
}

/// Classifies how a process ended into the outcome for its (project, stage)
/// pair.
pub fn outcome_of(r: &ProcessResult) -> (o: StageOutcome)
    ensures
        o@ == spec_outcome(r@),
{
    match r {
        ProcessResult::SpawnFailed(m) => StageOutcome::Failed(m.clone()),
        ProcessResult::Exited(c) => {
            if *c == 0 {
                StageOutcome::Succeeded
            } else {
                let mut msg = String::from_str("exited with code ");
                msg.append(i32_dec(*c).as_str());
                StageOutcome::Failed(msg)
            }
        },
        ProcessResult::Signaled => StageOutcome::Failed(
            String::from_str("terminated without exit code"),
        ),
    }
}

impl StageOutcome {
    /// The phrase the report prints for this outcome.
    pub open spec fn spec_describe(self) -> Seq<char> {
        match self@ {
            OutcomeView::Succeeded => "succeeded"@,
            OutcomeView::Failed(m) => "failed: "@ + m,
            OutcomeView::Skipped(m) => "skipped: "@ + m,
        }
    }

    pub fn describe(&self) -> (r: String)
        ensures
            r@ == self.spec_describe(),
    {
        match self {
            StageOutcome::Succeeded => String::from_str("succeeded"),
            StageOutcome::Failed(m) => {
                let mut r = String::from_str("failed: ");
                r.append(m.as_str());
                r
            },
            StageOutcome::Skipped(m) => {
                let mut r = String::from_str("skipped: ");
                r.append(m.as_str());
                r
            },
        }
    }
}

} // verus!
