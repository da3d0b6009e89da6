//! What comes back from an operation that a state machine handed out.

use vstd::prelude::*;

verus! {

/// What the caller reports back after carrying out a pending operation.
/// Only a step that asks for a branch or a commit reads what is reported;
/// to every other step anything but a failure is a success.
#[derive(Clone, Debug, PartialEq, Eq)]
pub enum StepOutcome {
    /// The operation succeeded and has nothing to report.
    Done,
    /// The remote was reached; it advertises this default branch.
    Branch(String),
    /// The fetch result resolves to this commit.
    Commit(String),
    /// The operation failed, with this explanation.
    Failed(String),
}

/// The model of a [`StepOutcome`].
pub enum StepOutcomeView {
    Done,
    Branch(Seq<char>),
    Commit(Seq<char>),
    Failed(Seq<char>),
}

impl View for StepOutcome {
    type V = StepOutcomeView;

    open spec fn view(&self) -> StepOutcomeView {
        match self {
            StepOutcome::Done => StepOutcomeView::Done,
            StepOutcome::Branch(b) => StepOutcomeView::Branch(b@),
            StepOutcome::Commit(c) => StepOutcomeView::Commit(c@),
            StepOutcome::Failed(m) => StepOutcomeView::Failed(m@),
        }
    }
}

} // verus!
