use vstd::prelude::*;

verus! {

/// The state of a one-shot task row.
#[derive(Clone, Copy, Debug, PartialEq, Eq, Structural)]
pub enum FangTaskState {
    New,
    InProgress,
    Finished,
    Failed,
}

/// One step of a row's lifecycle: `New -> InProgress -> {Finished | Failed}`.
pub open spec fn lifecycle_step(from: FangTaskState, to: FangTaskState) -> bool {
    ||| (from == FangTaskState::New && to == FangTaskState::InProgress)
    ||| (from == FangTaskState::InProgress && to == FangTaskState::Finished)
    ||| (from == FangTaskState::InProgress && to == FangTaskState::Failed)
}

/// The label of a state in the database enum.
pub open spec fn state_label(s: FangTaskState) -> Seq<char> {
    match s {
        FangTaskState::New => "new"@,
        FangTaskState::InProgress => "in_progress"@,
        FangTaskState::Finished => "finished"@,
        FangTaskState::Failed => "failed"@,
    }
}

impl FangTaskState {
    /// `Finished` and `Failed` are terminal.
    pub open spec fn spec_is_terminal(&self) -> bool {
        *self == FangTaskState::Finished || *self == FangTaskState::Failed
    }

    #[verifier::when_used_as_spec(spec_is_terminal)]
    pub fn is_terminal(&self) -> (r: bool)
        ensures
            r == self.spec_is_terminal(),
    {
        match self {
            FangTaskState::Finished | FangTaskState::Failed => true,
            _ => false,
        }
    }

    /// The label of this state in the database enum.
    pub fn as_label(&self) -> (r: &'static str)
        ensures
            r@ == state_label(*self),
    {
        match self {
            FangTaskState::New => {
                proof { reveal_strlit("new"); }
                "new"
            },
            FangTaskState::InProgress => {
                proof { reveal_strlit("in_progress"); }
                "in_progress"
            },
            FangTaskState::Finished => {
                proof { reveal_strlit("finished"); }
                "finished"
            },
            FangTaskState::Failed => {
                proof { reveal_strlit("failed"); }
                "failed"
            },
        }
    }
}

/// No lifecycle step leaves a terminal state or returns to `New`.
pub proof fn lemma_lifecycle_is_acyclic(from: FangTaskState, to: FangTaskState)
    requires
        lifecycle_step(from, to),
    ensures
        !from.spec_is_terminal(),
        to != FangTaskState::New,
        from != to,
{
}

} // verus!
