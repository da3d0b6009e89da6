//! The mirror initializer: the protocol that creates a mirror which does
//! not exist yet.
//!
//! Like the updater, the initializer is a state machine that hands out one
//! operation at a time and takes in its outcome. A new mirror is cloned in
//! full; if the project carries a description, it is then written into
//! the repository's description file. A description that cannot be written
//! fails the initialisation of that mirror, with an error of its own.

use vstd::prelude::*;
use crate::paths::description_file;
use crate::paths::description_slot;
use crate::paths::joined;
use crate::resolve::MirrorTarget;
use crate::resolve::MirrorTargetView;
use crate::outcome::StepOutcome;
use crate::outcome::StepOutcomeView;

verus! {

/// The reason an initialisation ended without success.
#[derive(Clone, Copy, Debug, PartialEq, Eq, Structural)]
pub enum InitErrorKind {
    /// The repository could not be cloned.
    CloneFailed,
    /// The repository was cloned, but its description could not be written.
    DescriptionWriteFailed,
}

/// A failed initialisation: which step failed, and what the failing
/// operation said.
#[derive(Clone, Debug, PartialEq, Eq)]
pub struct InitError {
    pub kind: InitErrorKind,
    pub cause: String,
}

/// The model of an [`InitError`].
pub struct InitErrorView {
    pub kind: InitErrorKind,
    pub cause: Seq<char>,
}

impl View for InitError {
    type V = InitErrorView;

    open spec fn view(&self) -> InitErrorView {
        InitErrorView { kind: self.kind, cause: self.cause@ }
    }
}

/// One operation on disk or on the network, for the caller to carry out.
#[derive(Clone, Debug, PartialEq, Eq)]
pub enum InitAction {
    /// Clone the repository at `url` in full into the new directory `path`.
    Clone { url: String, path: String },
    /// Create `file` with the content `text`.
    WriteDescription { file: String, text: String },
}

/// The model of an [`InitAction`].
pub enum InitActionView {
    Clone { url: Seq<char>, path: Seq<char> },
    WriteDescription { file: Seq<char>, text: Seq<char> },
}

impl View for InitAction {
    type V = InitActionView;

    open spec fn view(&self) -> InitActionView {
        match self {
            InitAction::Clone { url, path } => InitActionView::Clone { url: url@, path: path@ },
            InitAction::WriteDescription { file, text } => InitActionView::WriteDescription {
                file: file@,
                text: text@,
            },
        }
    }
}

/// How far an initialisation has come.
#[derive(Clone, Debug, PartialEq, Eq)]
pub enum InitState {
    /// Waiting for the clone of `target`.
    Cloning { target: MirrorTarget },
    /// Waiting for `text` to be written to `file`.
    Describing { file: String, text: String },
    /// The mirror exists and is labelled as asked.
    Initialized,
    /// A step failed; what came after it was not attempted.
    Failed(InitError),
}

/// The model of an [`InitState`].
pub enum InitStateView {
    Cloning { target: MirrorTargetView },
    Describing { file: Seq<char>, text: Seq<char> },
    Initialized,
    Failed(InitErrorView),
}

impl View for InitState {
    type V = InitStateView;

    open spec fn view(&self) -> InitStateView {
        match self {
            InitState::Cloning { target } => InitStateView::Cloning { target: target@ },
            InitState::Describing { file, text } => InitStateView::Describing {
                file: file@,
                text: text@,
            },
            InitState::Initialized => InitStateView::Initialized,
            InitState::Failed(e) => InitStateView::Failed(e@),
        }
    }
}

impl InitStateView {
    /// The state in which the initialisation of `target` starts.
    pub open spec fn begin(target: MirrorTargetView) -> InitStateView {
        InitStateView::Cloning { target }
    }

    /// An initialisation is over when it has succeeded or failed.
    pub open spec fn is_terminal(self) -> bool {
        self is Initialized || self is Failed
    }

    /// The operation this state waits for; none when all is over.
    pub open spec fn pending(self) -> Option<InitActionView> {
        match self {
            InitStateView::Cloning { target } => Some(
                InitActionView::Clone { url: target.url, path: target.path },
            ),
            InitStateView::Describing { file, text } => Some(
                InitActionView::WriteDescription { file, text },
            ),
            InitStateView::Initialized => None,
            InitStateView::Failed(_) => None,
        }
    }

    /// The state that follows this one when the pending operation ends with
    /// `outcome`. A terminal state stays as it is. A failed clone ends the
    /// initialisation as `CloneFailed`, a failed write as
    /// `DescriptionWriteFailed`. After a clone that did not fail, the
    /// description, if there is one, is to be written to the description
    /// file of the new repository.
    pub open spec fn next(self, outcome: StepOutcomeView) -> InitStateView {
        match self {
            InitStateView::Cloning { target } => match outcome {
                StepOutcomeView::Failed(cause) => InitStateView::Failed(
                    InitErrorView { kind: InitErrorKind::CloneFailed, cause },
                ),
                _ => match target.description {
                    Some(text) => InitStateView::Describing {
                        file: joined(target.path, description_slot()),
                        text,
                    },
                    None => InitStateView::Initialized,
                },
            },
            InitStateView::Describing { .. } => match outcome {
                StepOutcomeView::Failed(cause) => InitStateView::Failed(
                    InitErrorView { kind: InitErrorKind::DescriptionWriteFailed, cause },
                ),
                _ => InitStateView::Initialized,
            },
            InitStateView::Initialized => self,
            InitStateView::Failed(_) => self,
        }
    }

    /// What the finished initialisation amounts to; none while it is under
    /// way.
    pub open spec fn result(self) -> Option<Result<(), InitErrorView>> {
        match self {
            InitStateView::Initialized => Some(Ok(())),
            InitStateView::Failed(e) => Some(Err(e)),
            _ => None,
        }
    }

    /// The state reached from this one when the operations, as they come
    /// up, end with `outcomes` in turn.
    pub open spec fn run(self, outcomes: Seq<StepOutcomeView>) -> InitStateView
        decreases outcomes.len(),
    {
        if outcomes.len() == 0 {
            self
        } else {
            self.next(outcomes[0]).run(outcomes.drop_first())
        }
    }

    /// The operations that are handed out, in order, while the outcomes
    /// `outcomes` come in one by one.
    pub open spec fn trace(self, outcomes: Seq<StepOutcomeView>) -> Seq<InitActionView>
        decreases outcomes.len(),
    {
        if outcomes.len() == 0 || self.is_terminal() {
            Seq::empty()
        } else {
            seq![self.pending().unwrap()] + self.next(outcomes[0]).trace(outcomes.drop_first())
        }
    }
}

impl InitState {
    /// Starts the initialisation of the mirror `target`.
    pub fn begin(target: MirrorTarget) -> (state: InitState)
        ensures
            state@ == InitStateView::begin(target@),
    {
        InitState::Cloning { target }
    }

    /// Whether the initialisation is over.
    pub fn is_terminal(&self) -> (over: bool)
        ensures
            over == self@.is_terminal(),
    {
        match self {
            InitState::Initialized => true,
            InitState::Failed(_) => true,
            _ => false,
        }
    }

    /// The operation to carry out next, or `None` when all is over.
    pub fn pending(&self) -> (action: Option<InitAction>)
        ensures
            match action {
                Some(a) => self@.pending() == Some(a@),
                None => self@.pending().is_none(),
            },
    {
        match self {
            InitState::Cloning { target } => Some(
                InitAction::Clone { url: target.url.clone(), path: target.path.clone() },
            ),
            InitState::Describing { file, text } => Some(
                InitAction::WriteDescription { file: file.clone(), text: text.clone() },
            ),
            InitState::Initialized => None,
            InitState::Failed(_) => None,
        }
    }

    /// Takes in the outcome of the pending operation and moves on.
    pub fn advance(self, outcome: StepOutcome) -> (next: InitState)
        ensures
            next@ == self@.next(outcome@),
    {
        match self {
            InitState::Cloning { target } => match outcome {
                StepOutcome::Failed(cause) => InitState::Failed(
                    InitError { kind: InitErrorKind::CloneFailed, cause },
                ),
                _ => match target.description {
                    Some(text) => InitState::Describing {
                        file: description_file(target.path.as_str()),
                        text,
                    },
                    None => InitState::Initialized,
                },
            },
            InitState::Describing { file, text } => match outcome {
                StepOutcome::Failed(cause) => InitState::Failed(
                    InitError { kind: InitErrorKind::DescriptionWriteFailed, cause },
                ),
                _ => InitState::Initialized,
            },
            InitState::Initialized => InitState::Initialized,
            InitState::Failed(e) => InitState::Failed(e),
        }
    }

    /// The result of the initialisation: `None` while it is under way,
    /// then `Ok(())` if every step succeeded, or the error of the step
    /// that failed.
    pub fn result(&self) -> (r: Option<Result<(), InitError>>)
        ensures
            match r {
                None => self@.result().is_none(),
                Some(Ok(_)) => self@.result() == Some(Ok::<(), InitErrorView>(())),
                Some(Err(e)) => self@.result() == Some(Err::<(), InitErrorView>(e@)),
            },
    {
        match self {
            InitState::Initialized => Some(Ok(())),
            InitState::Failed(e) => Some(Err(InitError { kind: e.kind, cause: e.cause.clone() })),
            _ => None,
        }
    }
}

/// An initialisation waits for an operation exactly as long as it has no
/// result.
pub proof fn lemma_init_pending_until_terminal(s: InitStateView)
    ensures
        s.pending().is_none() <==> s.is_terminal(),
        s.result().is_some() <==> s.is_terminal(),
{
}

/// Once an initialisation is over, no further outcome changes its state
/// and no further operation is handed out.
pub proof fn lemma_init_terminal_is_final(s: InitStateView, outcomes: Seq<StepOutcomeView>)
    requires
        s.is_terminal(),
    ensures
        s.run(outcomes) == s,
        s.trace(outcomes) == Seq::<InitActionView>::empty(),
    decreases outcomes.len(),
{
    if outcomes.len() > 0 {
        lemma_init_terminal_is_final(s, outcomes.drop_first());
    }
}

/// An initialisation is over after two outcomes at the latest.
pub proof fn lemma_init_ends(target: MirrorTargetView, outcomes: Seq<StepOutcomeView>)
    requires
        outcomes.len() >= 2,
    ensures
        InitStateView::begin(target).run(outcomes).is_terminal(),
{
    let s0 = InitStateView::begin(target);
    let s1 = s0.next(outcomes[0]);
    let o1 = outcomes.drop_first();
    let s2 = s1.next(o1[0]);
    assert(s2.is_terminal());
    lemma_init_terminal_is_final(s2, o1.drop_first());
    assert(s1.run(o1) == s2.run(o1.drop_first()));
}

/// When the clone fails, the initialisation ends as `CloneFailed` with the
/// cause reported for the clone, and no description is written.
pub proof fn lemma_failed_clone(
    target: MirrorTargetView,
    cause: Seq<char>,
    later: Seq<StepOutcomeView>,
)
    ensures
        InitStateView::begin(target).run(seq![StepOutcomeView::Failed(cause)] + later)
            == InitStateView::Failed(InitErrorView { kind: InitErrorKind::CloneFailed, cause }),
        InitStateView::begin(target).trace(seq![StepOutcomeView::Failed(cause)] + later) == seq![
            InitActionView::Clone { url: target.url, path: target.path },
        ],
{
    let outcomes = seq![StepOutcomeView::Failed(cause)] + later;
    let failed = InitStateView::Failed(InitErrorView { kind: InitErrorKind::CloneFailed, cause });
    assert(outcomes[0] == StepOutcomeView::Failed(cause));
    assert(outcomes.drop_first() =~= later);
    lemma_init_terminal_is_final(failed, later);
}

/// The protocol of an initialisation whose clone does not fail. Without a
/// description the clone is all there is to do. With one, the clone is
/// followed by one write of exactly that text to the description file of
/// the new repository; the initialisation succeeds if the write does, and
/// ends as `DescriptionWriteFailed`, with the cause reported for the
/// write, if it does not.
pub proof fn lemma_init_protocol(target: MirrorTargetView, outcomes: Seq<StepOutcomeView>)
    requires
        outcomes.len() == 2,
        !(outcomes[0] is Failed),
    ensures
        target.description is None ==> {
            &&& InitStateView::begin(target).run(outcomes) == InitStateView::Initialized
            &&& InitStateView::begin(target).trace(outcomes) == seq![
                InitActionView::Clone { url: target.url, path: target.path },
            ]
        },
        target.description matches Some(text) ==> {
            &&& InitStateView::begin(target).trace(outcomes) == seq![
                InitActionView::Clone { url: target.url, path: target.path },
                InitActionView::WriteDescription {
                    file: joined(target.path, description_slot()),
                    text,
                },
            ]
            &&& InitStateView::begin(target).run(outcomes) == match outcomes[1] {
                StepOutcomeView::Failed(cause) => InitStateView::Failed(
                    InitErrorView { kind: InitErrorKind::DescriptionWriteFailed, cause },
                ),
                _ => InitStateView::Initialized,
            }
        },
{
    let s0 = InitStateView::begin(target);
    let s1 = s0.next(outcomes[0]);
    let o1 = outcomes.drop_first();
    let s2 = s1.next(o1[0]);
    let o2 = o1.drop_first();
    assert(o1[0] == outcomes[1] && o2.len() == 0);
    assert(s2.is_terminal());
    assert(s2.run(o2) == s2 && s2.trace(o2) =~= Seq::<InitActionView>::empty());
    assert(s1.run(o1) == s2);
    assert(s0.run(outcomes) == s2);
    if target.description is None {
        lemma_init_terminal_is_final(s1, o1);
        assert(s0.trace(outcomes) =~= seq![s0.pending().unwrap()]);
    } else {
        assert(s1.trace(o1) =~= seq![s1.pending().unwrap()]);
        assert(s0.trace(outcomes) =~= seq![s0.pending().unwrap()] + s1.trace(o1));
    }
}

} // verus!
