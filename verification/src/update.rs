//! The mirror updater: the protocol that brings an existing mirror in line
//! with the default branch its remote currently advertises.
//!
//! The updater itself touches neither disk nor network. It is a state
//! machine: [`UpdateState::pending`] names the one operation that has to be
//! carried out next, the caller carries it out and hands the
//! [`StepOutcome`] to [`UpdateState::advance`]. The steps run in a fixed
//! order and the first failure ends the update; nothing is rolled back and
//! nothing is tried twice.

use vstd::prelude::*;
use vstd::string::StringExecFns;
use crate::outcome::StepOutcome;
use crate::outcome::StepOutcomeView;

verus! {

/// The reason an update ended without success.
#[derive(Clone, Copy, Debug, PartialEq, Eq, Structural)]
pub enum UpdateErrorKind {
    /// The mirror's path does not hold a repository that can be opened.
    NotARepository,
    /// The repository has no remote named `origin`.
    NoOrigin,
    /// The remote could not be reached or did not name a default branch.
    ConnectFailed,
    /// Fetching the default branch failed.
    FetchFailed,
    /// The fetched commit could not be resolved, or the local branch or the
    /// current-branch pointer could not be moved to it.
    RefUpdateFailed,
    /// The working directory could not be overwritten with the new tip.
    CheckoutFailed,
}

/// A failed update: which step failed, and what the failing operation said.
#[derive(Clone, Debug, PartialEq, Eq)]
pub struct UpdateError {
    pub kind: UpdateErrorKind,
    pub cause: String,
}

/// The model of an [`UpdateError`].
pub struct UpdateErrorView {
    pub kind: UpdateErrorKind,
    pub cause: Seq<char>,
}

impl View for UpdateError {
    type V = UpdateErrorView;

    open spec fn view(&self) -> UpdateErrorView {
        UpdateErrorView { kind: self.kind, cause: self.cause@ }
    }
}

/// One operation on the mirror or its remote, for the caller to carry out.
#[derive(Clone, Debug, PartialEq, Eq)]
pub enum UpdateAction {
    /// Open the repository rooted at `path`.
    Open { path: String },
    /// Look up the remote called `name`.
    FindRemote { name: String },
    /// Connect to the remote in the fetch direction and ask for the name of
    /// its default branch. Answered by [`StepOutcome::Branch`].
    DiscoverDefaultBranch,
    /// Fetch `branch`, and nothing else, from the remote. With `prune`,
    /// tracking refs of branches that are gone upstream are removed.
    Fetch { branch: String, prune: bool },
    /// Resolve the result of the fetch to a commit. Answered by
    /// [`StepOutcome::Commit`].
    ResolveFetchHead,
    /// Point the local `branch` at `commit`, whatever it pointed at before.
    SetBranchTarget { branch: String, commit: String },
    /// Make `branch` the current branch.
    SetHead { branch: String },
    /// Make the working directory match the current branch. With `force`,
    /// local modifications are overwritten.
    CheckoutHead { force: bool },
}

/// The model of an [`UpdateAction`].
pub enum UpdateActionView {
    Open { path: Seq<char> },
    FindRemote { name: Seq<char> },
    DiscoverDefaultBranch,
    Fetch { branch: Seq<char>, prune: bool },
    ResolveFetchHead,
    SetBranchTarget { branch: Seq<char>, commit: Seq<char> },
    SetHead { branch: Seq<char> },
    CheckoutHead { force: bool },
}

impl View for UpdateAction {
    type V = UpdateActionView;

    open spec fn view(&self) -> UpdateActionView {
        match self {
            UpdateAction::Open { path } => UpdateActionView::Open { path: path@ },
            UpdateAction::FindRemote { name } => UpdateActionView::FindRemote { name: name@ },
            UpdateAction::DiscoverDefaultBranch => UpdateActionView::DiscoverDefaultBranch,
            UpdateAction::Fetch { branch, prune } => UpdateActionView::Fetch {
                branch: branch@,
                prune: *prune,
            },
            UpdateAction::ResolveFetchHead => UpdateActionView::ResolveFetchHead,
            UpdateAction::SetBranchTarget { branch, commit } => UpdateActionView::SetBranchTarget {
                branch: branch@,
                commit: commit@,
            },
            UpdateAction::SetHead { branch } => UpdateActionView::SetHead { branch: branch@ },
            UpdateAction::CheckoutHead { force } => UpdateActionView::CheckoutHead {
                force: *force,
            },
        }
    }
}

/// How far an update has come. Each state but the last two waits for the
/// outcome of one operation.
#[derive(Clone, Debug, PartialEq, Eq)]
pub enum UpdateState {
    /// Waiting for the repository at `path` to be opened.
    Opening { path: String },
    /// Waiting for the remote `origin` to be found.
    LocatingRemote,
    /// Waiting for the remote to name its default branch.
    Discovering,
    /// Waiting for `branch` to be fetched.
    Fetching { branch: String },
    /// Waiting for the fetched commit to be resolved.
    Resolving { branch: String },
    /// Waiting for the local `branch` to be pointed at `commit`.
    Advancing { branch: String, commit: String },
    /// Waiting for `branch` to become the current branch.
    SwitchingHead { branch: String },
    /// Waiting for the working directory to be overwritten.
    CheckingOut,
    /// Every step succeeded.
    Updated,
    /// A step failed; the steps after it were not attempted.
    Failed(UpdateError),
}

/// The model of an [`UpdateState`].
pub enum UpdateStateView {
    Opening { path: Seq<char> },
    LocatingRemote,
    Discovering,
    Fetching { branch: Seq<char> },
    Resolving { branch: Seq<char> },
    Advancing { branch: Seq<char>, commit: Seq<char> },
    SwitchingHead { branch: Seq<char> },
    CheckingOut,
    Updated,
    Failed(UpdateErrorView),
}

impl View for UpdateState {
    type V = UpdateStateView;

    open spec fn view(&self) -> UpdateStateView {
        match self {
            UpdateState::Opening { path } => UpdateStateView::Opening { path: path@ },
            UpdateState::LocatingRemote => UpdateStateView::LocatingRemote,
            UpdateState::Discovering => UpdateStateView::Discovering,
            UpdateState::Fetching { branch } => UpdateStateView::Fetching { branch: branch@ },
            UpdateState::Resolving { branch } => UpdateStateView::Resolving { branch: branch@ },
            UpdateState::Advancing { branch, commit } => UpdateStateView::Advancing {
                branch: branch@,
                commit: commit@,
            },
            UpdateState::SwitchingHead { branch } => UpdateStateView::SwitchingHead {
                branch: branch@,
            },
            UpdateState::CheckingOut => UpdateStateView::CheckingOut,
            UpdateState::Updated => UpdateStateView::Updated,
            UpdateState::Failed(e) => UpdateStateView::Failed(e@),
        }
    }
}

/// The name of the remote that a mirror follows.
pub open spec fn origin() -> Seq<char> {
    "origin"@
}

/// The explanation recorded when the remote answered without naming a
/// default branch.
pub open spec fn no_branch_cause() -> Seq<char> {
    "the remote did not name a default branch"@
}

/// The explanation recorded when the fetch result came back without a
/// commit.
pub open spec fn no_commit_cause() -> Seq<char> {
    "the fetch result did not resolve to a commit"@
}

impl UpdateStateView {
    /// The state in which the update of the mirror at `path` starts.
    pub open spec fn begin(path: Seq<char>) -> UpdateStateView {
        UpdateStateView::Opening { path }
    }

    /// An update is over when it has succeeded or failed.
    pub open spec fn is_terminal(self) -> bool {
        self is Updated || self is Failed
    }

    /// The error that a failure in this state amounts to. (For the two
    /// terminal states, which wait for nothing, the value is of no use.)
    pub open spec fn failure_kind(self) -> UpdateErrorKind {
        match self {
            UpdateStateView::Opening { .. } => UpdateErrorKind::NotARepository,
            UpdateStateView::LocatingRemote => UpdateErrorKind::NoOrigin,
            UpdateStateView::Discovering => UpdateErrorKind::ConnectFailed,
            UpdateStateView::Fetching { .. } => UpdateErrorKind::FetchFailed,
            UpdateStateView::Resolving { .. } => UpdateErrorKind::RefUpdateFailed,
            UpdateStateView::Advancing { .. } => UpdateErrorKind::RefUpdateFailed,
            UpdateStateView::SwitchingHead { .. } => UpdateErrorKind::RefUpdateFailed,
            UpdateStateView::CheckingOut => UpdateErrorKind::CheckoutFailed,
            UpdateStateView::Updated => UpdateErrorKind::CheckoutFailed,
            UpdateStateView::Failed(e) => e.kind,
        }
    }

    /// The operation this state waits for; none when the update is over.
    pub open spec fn pending(self) -> Option<UpdateActionView> {
        match self {
            UpdateStateView::Opening { path } => Some(UpdateActionView::Open { path }),
            UpdateStateView::LocatingRemote => Some(
                UpdateActionView::FindRemote { name: origin() },
            ),
            UpdateStateView::Discovering => Some(UpdateActionView::DiscoverDefaultBranch),
            UpdateStateView::Fetching { branch } => Some(
                UpdateActionView::Fetch { branch, prune: true },
            ),
            UpdateStateView::Resolving { .. } => Some(UpdateActionView::ResolveFetchHead),
            UpdateStateView::Advancing { branch, commit } => Some(
                UpdateActionView::SetBranchTarget { branch, commit },
            ),
            UpdateStateView::SwitchingHead { branch } => Some(
                UpdateActionView::SetHead { branch },
            ),
            UpdateStateView::CheckingOut => Some(UpdateActionView::CheckoutHead { force: true }),
            UpdateStateView::Updated => None,
            UpdateStateView::Failed(_) => None,
        }
    }

    /// The state that follows when the pending operation is carried out
    /// without a failure and reports `outcome`.
    pub open spec fn proceed(self, outcome: StepOutcomeView) -> UpdateStateView {
        match self {
            UpdateStateView::Opening { .. } => UpdateStateView::LocatingRemote,
            UpdateStateView::LocatingRemote => UpdateStateView::Discovering,
            UpdateStateView::Discovering => match outcome {
                StepOutcomeView::Branch(branch) => UpdateStateView::Fetching { branch },
                _ => UpdateStateView::Failed(
                    UpdateErrorView {
                        kind: UpdateErrorKind::ConnectFailed,
                        cause: no_branch_cause(),
                    },
                ),
            },
            UpdateStateView::Fetching { branch } => UpdateStateView::Resolving { branch },
            UpdateStateView::Resolving { branch } => match outcome {
                StepOutcomeView::Commit(commit) => UpdateStateView::Advancing { branch, commit },
                _ => UpdateStateView::Failed(
                    UpdateErrorView {
                        kind: UpdateErrorKind::RefUpdateFailed,
                        cause: no_commit_cause(),
                    },
                ),
            },
            UpdateStateView::Advancing { branch, .. } => UpdateStateView::SwitchingHead {
                branch,
            },
            UpdateStateView::SwitchingHead { .. } => UpdateStateView::CheckingOut,
            UpdateStateView::CheckingOut => UpdateStateView::Updated,
            UpdateStateView::Updated => self,
            UpdateStateView::Failed(_) => self,
        }
    }

    /// The state that follows this one when the pending operation ends with
    /// `outcome`. A terminal state stays as it is. Otherwise a failure ends
    /// the update with the error of the step that failed, and anything else
    /// moves on to the next step.
    pub open spec fn next(self, outcome: StepOutcomeView) -> UpdateStateView {
        if self.is_terminal() {
            self
        } else {
            match outcome {
                StepOutcomeView::Failed(cause) => UpdateStateView::Failed(
                    UpdateErrorView { kind: self.failure_kind(), cause },
                ),
                _ => self.proceed(outcome),
            }
        }
    }

    /// What the finished update amounts to; none while it is under way.
    pub open spec fn result(self) -> Option<Result<(), UpdateErrorView>> {
        match self {
            UpdateStateView::Updated => Some(Ok(())),
            UpdateStateView::Failed(e) => Some(Err(e)),
            _ => None,
        }
    }

    /// The state reached from this one when the operations, as they come
    /// up, end with `outcomes` in turn.
    pub open spec fn run(self, outcomes: Seq<StepOutcomeView>) -> UpdateStateView
        decreases outcomes.len(),
    {
        if outcomes.len() == 0 {
            self
        } else {
            self.next(outcomes[0]).run(outcomes.drop_first())
        }
    }

    /// The number of operations that are still to come if none fails.
    pub open spec fn steps_left(self) -> nat {
        match self {
            UpdateStateView::Opening { .. } => 8,
            UpdateStateView::LocatingRemote => 7,
            UpdateStateView::Discovering => 6,
            UpdateStateView::Fetching { .. } => 5,
            UpdateStateView::Resolving { .. } => 4,
            UpdateStateView::Advancing { .. } => 3,
            UpdateStateView::SwitchingHead { .. } => 2,
            UpdateStateView::CheckingOut => 1,
            UpdateStateView::Updated => 0,
            UpdateStateView::Failed(_) => 0,
        }
    }
}

impl UpdateState {
    /// Starts the update of the mirror rooted at `path`.
    pub fn begin(path: &str) -> (state: UpdateState)
        ensures
            state@ == UpdateStateView::begin(path@),
    {
        UpdateState::Opening { path: String::from_str(path) }
    }

    /// Whether the update is over.
    pub fn is_terminal(&self) -> (over: bool)
        ensures
            over == self@.is_terminal(),
    {
        match self {
            UpdateState::Updated => true,
            UpdateState::Failed(_) => true,
            _ => false,
        }
    }

    /// The operation to carry out next, or `None` when the update is over.
    pub fn pending(&self) -> (action: Option<UpdateAction>)
        ensures
            match action {
                Some(a) => self@.pending() == Some(a@),
                None => self@.pending().is_none(),
            },
    {
        match self {
            UpdateState::Opening { path } => Some(UpdateAction::Open { path: path.clone() }),
            UpdateState::LocatingRemote => Some(
                UpdateAction::FindRemote { name: String::from_str("origin") },
            ),
            UpdateState::Discovering => Some(UpdateAction::DiscoverDefaultBranch),
            UpdateState::Fetching { branch } => Some(
                UpdateAction::Fetch { branch: branch.clone(), prune: true },
            ),
            UpdateState::Resolving { .. } => Some(UpdateAction::ResolveFetchHead),
            UpdateState::Advancing { branch, commit } => Some(
                UpdateAction::SetBranchTarget { branch: branch.clone(), commit: commit.clone() },
            ),
            UpdateState::SwitchingHead { branch } => Some(
                UpdateAction::SetHead { branch: branch.clone() },
            ),
            UpdateState::CheckingOut => Some(UpdateAction::CheckoutHead { force: true }),
            UpdateState::Updated => None,
            UpdateState::Failed(_) => None,
        }
    }

    /// Takes in the outcome of the pending operation and moves on.
    pub fn advance(self, outcome: StepOutcome) -> (next: UpdateState)
        ensures
            next@ == self@.next(outcome@),
    {
        match self {
            UpdateState::Updated => UpdateState::Updated,
            UpdateState::Failed(e) => UpdateState::Failed(e),
            UpdateState::Opening { path } => match outcome {
                StepOutcome::Failed(cause) => fail(UpdateErrorKind::NotARepository, cause),
                _ => UpdateState::LocatingRemote,
            },
            UpdateState::LocatingRemote => match outcome {
                StepOutcome::Failed(cause) => fail(UpdateErrorKind::NoOrigin, cause),
                _ => UpdateState::Discovering,
            },
            UpdateState::Discovering => match outcome {
                StepOutcome::Failed(cause) => fail(UpdateErrorKind::ConnectFailed, cause),
                StepOutcome::Branch(branch) => UpdateState::Fetching { branch },
                _ => fail(
                    UpdateErrorKind::ConnectFailed,
                    String::from_str("the remote did not name a default branch"),
                ),
            },
            UpdateState::Fetching { branch } => match outcome {
                StepOutcome::Failed(cause) => fail(UpdateErrorKind::FetchFailed, cause),
                _ => UpdateState::Resolving { branch },
            },
            UpdateState::Resolving { branch } => match outcome {
                StepOutcome::Failed(cause) => fail(UpdateErrorKind::RefUpdateFailed, cause),
                StepOutcome::Commit(commit) => UpdateState::Advancing { branch, commit },
                _ => fail(
                    UpdateErrorKind::RefUpdateFailed,
                    String::from_str("the fetch result did not resolve to a commit"),
                ),
            },
            UpdateState::Advancing { branch, commit } => match outcome {
                StepOutcome::Failed(cause) => fail(UpdateErrorKind::RefUpdateFailed, cause),
                _ => UpdateState::SwitchingHead { branch },
            },
            UpdateState::SwitchingHead { branch } => match outcome {
                StepOutcome::Failed(cause) => fail(UpdateErrorKind::RefUpdateFailed, cause),
                _ => UpdateState::CheckingOut,
            },
            UpdateState::CheckingOut => match outcome {
                StepOutcome::Failed(cause) => fail(UpdateErrorKind::CheckoutFailed, cause),
                _ => UpdateState::Updated,
            },
        }
    }

    /// The result of the update: `None` while it is under way, then
    /// `Ok(())` if every step succeeded, or the error of the step that
    /// failed.
    pub fn result(&self) -> (r: Option<Result<(), UpdateError>>)
        ensures
            match r {
                None => self@.result().is_none(),
                Some(Ok(_)) => self@.result() == Some(Ok::<(), UpdateErrorView>(())),
                Some(Err(e)) => self@.result() == Some(Err::<(), UpdateErrorView>(e@)),
            },
    {
        match self {
            UpdateState::Updated => Some(Ok(())),
            UpdateState::Failed(e) => Some(
                Err(UpdateError { kind: e.kind, cause: e.cause.clone() }),
            ),
            _ => None,
        }
    }
}

/// The terminal state for a step that failed.
fn fail(kind: UpdateErrorKind, cause: String) -> (state: UpdateState)
    ensures
        state@ == UpdateStateView::Failed(UpdateErrorView { kind, cause: cause@ }),
{
    UpdateState::Failed(UpdateError { kind, cause })
}

impl UpdateStateView {
    /// The operations that are handed out, in order, while the outcomes
    /// `outcomes` come in one by one.
    pub open spec fn trace(self, outcomes: Seq<StepOutcomeView>) -> Seq<UpdateActionView>
        decreases outcomes.len(),
    {
        if outcomes.len() == 0 || self.is_terminal() {
            Seq::empty()
        } else {
            seq![self.pending().unwrap()] + self.next(outcomes[0]).trace(outcomes.drop_first())
        }
    }
}

/// An update waits for an operation exactly as long as it has no result:
/// the terminal states are those without a pending operation.
pub proof fn lemma_pending_until_terminal(s: UpdateStateView)
    ensures
        s.pending().is_none() <==> s.is_terminal(),
        s.result().is_some() <==> s.is_terminal(),
{
}

/// Every fetch that the updater asks for prunes, and every checkout is
/// forced: a tracking ref whose branch is gone upstream does not survive
/// an update, and neither do local modifications.
pub proof fn lemma_fetch_prunes_and_checkout_forces(s: UpdateStateView)
    ensures
        s.pending() matches Some(UpdateActionView::Fetch { prune, .. }) ==> prune,
        s.pending() matches Some(UpdateActionView::CheckoutHead { force }) ==> force,
        s.pending() matches Some(UpdateActionView::FindRemote { name }) ==> name == origin(),
{
}

/// Once an update is over, no further outcome changes its state and no
/// further operation is handed out.
pub proof fn lemma_terminal_is_final(s: UpdateStateView, outcomes: Seq<StepOutcomeView>)
    requires
        s.is_terminal(),
    ensures
        s.run(outcomes) == s,
        s.trace(outcomes) == Seq::<UpdateActionView>::empty(),
    decreases outcomes.len(),
{
    if outcomes.len() > 0 {
        lemma_terminal_is_final(s, outcomes.drop_first());
    }
}

/// The first failure decides. When the pending operation fails, the update
/// ends at once with the error of that step and the cause reported for it;
/// whatever is reported afterwards changes nothing, and the only operation
/// handed out is the one that failed.
pub proof fn lemma_failure_ends_update(
    s: UpdateStateView,
    cause: Seq<char>,
    later: Seq<StepOutcomeView>,
)
    requires
        !s.is_terminal(),
    ensures
        s.run(seq![StepOutcomeView::Failed(cause)] + later) == UpdateStateView::Failed(
            UpdateErrorView { kind: s.failure_kind(), cause },
        ),
        s.trace(seq![StepOutcomeView::Failed(cause)] + later) == seq![s.pending().unwrap()],
{
    let outcomes = seq![StepOutcomeView::Failed(cause)] + later;
    let failed = UpdateStateView::Failed(UpdateErrorView { kind: s.failure_kind(), cause });
    assert(outcomes[0] == StepOutcomeView::Failed(cause));
    assert(outcomes.drop_first() =~= later);
    assert(s.next(outcomes[0]) == failed);
    lemma_terminal_is_final(failed, later);
}

/// Each outcome brings an update that is under way one step nearer to its
/// end, so an update is over after eight outcomes at the latest.
pub proof fn lemma_update_ends(s: UpdateStateView, outcomes: Seq<StepOutcomeView>)
    requires
        outcomes.len() >= s.steps_left(),
    ensures
        s.run(outcomes).is_terminal(),
        s.steps_left() <= 8,
    decreases outcomes.len(),
{
    if s.is_terminal() {
        lemma_terminal_is_final(s, outcomes);
    } else {
        lemma_update_ends(s.next(outcomes[0]), outcomes.drop_first());
    }
}

/// The protocol of a successful update. When no operation fails, the
/// remote names `branch` and the fetch result resolves to `commit`, then
/// exactly these eight operations are handed out, in this order: open the
/// repository at `path`; find the remote `origin`; ask it for its default
/// branch; fetch that branch with pruning; resolve the fetch result; point
/// the local branch at the fetched commit, whatever it pointed at before;
/// make that branch the current one; force the working directory to it.
/// The update then ends as `Updated`.
pub proof fn lemma_successful_update(
    path: Seq<char>,
    branch: Seq<char>,
    commit: Seq<char>,
    outcomes: Seq<StepOutcomeView>,
)
    requires
        outcomes.len() == 8,
        forall|i: int| 0 <= i < 8 ==> !(#[trigger] outcomes[i] is Failed),
        outcomes[2] == StepOutcomeView::Branch(branch),
        outcomes[4] == StepOutcomeView::Commit(commit),
    ensures
        UpdateStateView::begin(path).run(outcomes) == UpdateStateView::Updated,
        UpdateStateView::begin(path).trace(outcomes) == seq![
            UpdateActionView::Open { path },
            UpdateActionView::FindRemote { name: origin() },
            UpdateActionView::DiscoverDefaultBranch,
            UpdateActionView::Fetch { branch, prune: true },
            UpdateActionView::ResolveFetchHead,
            UpdateActionView::SetBranchTarget { branch, commit },
            UpdateActionView::SetHead { branch },
            UpdateActionView::CheckoutHead { force: true },
        ],
{
    let s0 = UpdateStateView::begin(path);
    let s1 = s0.next(outcomes[0]);
    let s2 = s1.next(outcomes[1]);
    let s3 = s2.next(outcomes[2]);
    let s4 = s3.next(outcomes[3]);
    let s5 = s4.next(outcomes[4]);
    let s6 = s5.next(outcomes[5]);
    let s7 = s6.next(outcomes[6]);
    let s8 = s7.next(outcomes[7]);
    let o1 = outcomes.drop_first();
    let o2 = o1.drop_first();
    let o3 = o2.drop_first();
    let o4 = o3.drop_first();
    let o5 = o4.drop_first();
    let o6 = o5.drop_first();
    let o7 = o6.drop_first();
    let o8 = o7.drop_first();
    assert(o1[0] == outcomes[1] && o2[0] == outcomes[2] && o3[0] == outcomes[3]);
    assert(o4[0] == outcomes[4] && o5[0] == outcomes[5] && o6[0] == outcomes[6]);
    assert(o7[0] == outcomes[7] && o8.len() == 0);
    assert(s8 == UpdateStateView::Updated);
    assert(s8.run(o8) == s8 && s8.trace(o8) =~= Seq::<UpdateActionView>::empty());
    assert(s7.run(o7) == s8 && s7.trace(o7) =~= seq![s7.pending().unwrap()]);
    assert(s6.run(o6) == s8 && s6.trace(o6) =~= seq![s6.pending().unwrap()] + s7.trace(o7));
    assert(s5.run(o5) == s8 && s5.trace(o5) =~= seq![s5.pending().unwrap()] + s6.trace(o6));
    assert(s4.run(o4) == s8 && s4.trace(o4) =~= seq![s4.pending().unwrap()] + s5.trace(o5));
    assert(s3.run(o3) == s8 && s3.trace(o3) =~= seq![s3.pending().unwrap()] + s4.trace(o4));
    assert(s2.run(o2) == s8 && s2.trace(o2) =~= seq![s2.pending().unwrap()] + s3.trace(o3));
    assert(s1.run(o1) == s8 && s1.trace(o1) =~= seq![s1.pending().unwrap()] + s2.trace(o2));
    assert(s0.run(outcomes) == s8);
    assert(s0.trace(outcomes) =~= seq![s0.pending().unwrap()] + s1.trace(o1));
}

/// An update succeeds only along that one path: it ends as `Updated`
/// exactly when at least eight outcomes came in, none of the first eight
/// was a failure, the third named a branch and the fifth a commit.
pub proof fn lemma_updated_iff_all_steps_succeed(path: Seq<char>, outcomes: Seq<StepOutcomeView>)
    ensures
        UpdateStateView::begin(path).run(outcomes) is Updated <==> {
            &&& outcomes.len() >= 8
            &&& forall|i: int| 0 <= i < 8 ==> !(#[trigger] outcomes[i] is Failed)
            &&& outcomes[2] is Branch
            &&& outcomes[4] is Commit
        },
{
    let s0 = UpdateStateView::begin(path);
    lemma_run_reaches_updated(s0, outcomes);
}

/// The outcomes that take an update that is under way to `Updated`.
pub open spec fn leads_to_updated(s: UpdateStateView, outcomes: Seq<StepOutcomeView>) -> bool {
    &&& outcomes.len() >= s.steps_left()
    &&& forall|i: int| 0 <= i < s.steps_left() ==> !(#[trigger] outcomes[i] is Failed)
    &&& s.steps_left() >= 6 ==> outcomes[s.steps_left() - 6] is Branch
    &&& s.steps_left() >= 4 ==> outcomes[s.steps_left() - 4] is Commit
}

/// From any state but `Failed`, a run ends as `Updated` exactly when every
/// step still to come succeeds and reports what the step asks for.
pub proof fn lemma_run_reaches_updated(s: UpdateStateView, outcomes: Seq<StepOutcomeView>)
    requires
        !(s is Failed),
    ensures
        s.run(outcomes) is Updated <==> leads_to_updated(s, outcomes),
    decreases outcomes.len(),
{
    if s is Updated {
        lemma_terminal_is_final(s, outcomes);
    } else if outcomes.len() == 0 {
    } else {
        let n = s.next(outcomes[0]);
        let rest = outcomes.drop_first();
        assert(forall|i: int| 0 <= i < rest.len() ==> rest[i] == outcomes[i + 1]);
        if n is Failed {
            lemma_terminal_is_final(n, rest);
            assert(!leads_to_updated(s, outcomes)) by {
                if leads_to_updated(s, outcomes) {
                    assert(!(outcomes[0] is Failed));
                }
            }
        } else {
            lemma_run_reaches_updated(n, rest);
            assert(n.steps_left() + 1 == s.steps_left());
            if leads_to_updated(n, rest) {
                assert forall|i: int| 0 <= i < s.steps_left() implies !(
                #[trigger] outcomes[i] is Failed) by {
                    if i > 0 {
                        assert(rest[i - 1] == outcomes[i]);
                    }
                }
                assert(leads_to_updated(s, outcomes));
            }
            if leads_to_updated(s, outcomes) {
                assert forall|i: int| 0 <= i < n.steps_left() implies !(
                #[trigger] rest[i] is Failed) by {
                    assert(rest[i] == outcomes[i + 1]);
                }
                assert(leads_to_updated(n, rest));
            }
        }
    }
}

} // verus!
