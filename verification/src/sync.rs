//! The sync orchestrator: one pass over the declared projects.
//!
//! A pass resolves every project to its target and then takes the targets
//! in order. For each it decides between initializer and updater, and
//! records how the attempt ended. An attempt that fails is recorded like
//! one that succeeds, and the pass moves on: no project is skipped, none
//! is tried twice, and no outcome has any bearing on another project.

use vstd::prelude::*;
use vstd::string::StringExecFns;
use crate::config::Config;
use crate::init::InitActionView;
use crate::init::InitError;
use crate::init::InitErrorView;
use crate::init::InitState;
use crate::init::InitStateView;
use crate::resolve::plan;
use crate::resolve::planned;
use crate::resolve::MirrorTarget;
use crate::resolve::MirrorTargetView;
use crate::update::UpdateActionView;
use crate::update::UpdateError;
use crate::update::UpdateErrorView;
use crate::update::UpdateState;
use crate::update::UpdateStateView;

verus! {

/// The work that one target needs: a new mirror, or a refresh.
#[derive(Clone, Debug, PartialEq, Eq)]
pub enum Task {
    Init(InitState),
    Update(UpdateState),
}

/// The model of a [`Task`].
pub enum TaskView {
    Init(InitStateView),
    Update(UpdateStateView),
}

impl View for Task {
    type V = TaskView;

    open spec fn view(&self) -> TaskView {
        match self {
            Task::Init(s) => TaskView::Init(s@),
            Task::Update(s) => TaskView::Update(s@),
        }
    }
}

/// How the attempt on one project ended.
#[derive(Clone, Debug, PartialEq, Eq)]
pub enum SyncOutcome {
    Initialized,
    Updated,
    InitFailed(InitError),
    UpdateFailed(UpdateError),
}

/// The model of a [`SyncOutcome`].
pub enum SyncOutcomeView {
    Initialized,
    Updated,
    InitFailed(InitErrorView),
    UpdateFailed(UpdateErrorView),
}

impl View for SyncOutcome {
    type V = SyncOutcomeView;

    open spec fn view(&self) -> SyncOutcomeView {
        match self {
            SyncOutcome::Initialized => SyncOutcomeView::Initialized,
            SyncOutcome::Updated => SyncOutcomeView::Updated,
            SyncOutcome::InitFailed(e) => SyncOutcomeView::InitFailed(e@),
            SyncOutcome::UpdateFailed(e) => SyncOutcomeView::UpdateFailed(e@),
        }
    }
}

impl SyncOutcomeView {
    /// Whether the attempt failed.
    pub open spec fn is_failure(self) -> bool {
        self is InitFailed || self is UpdateFailed
    }
}

/// The task for `target`: a mirror that exists is updated where it lives,
/// one that does not is initialised from the target.
pub open spec fn dispatched(target: MirrorTargetView, exists: bool) -> TaskView {
    if exists {
        TaskView::Update(UpdateStateView::begin(target.path))
    } else {
        TaskView::Init(InitStateView::begin(target))
    }
}

impl TaskView {
    /// What the finished task amounts to; none while it is under way.
    pub open spec fn outcome(self) -> Option<SyncOutcomeView> {
        match self {
            TaskView::Init(s) => match s.result() {
                Some(Ok(_)) => Some(SyncOutcomeView::Initialized),
                Some(Err(e)) => Some(SyncOutcomeView::InitFailed(e)),
                None => None,
            },
            TaskView::Update(s) => match s.result() {
                Some(Ok(_)) => Some(SyncOutcomeView::Updated),
                Some(Err(e)) => Some(SyncOutcomeView::UpdateFailed(e)),
                None => None,
            },
        }
    }
}

/// Decides what to do for `target`, given whether its path exists.
pub fn dispatch(target: &MirrorTarget, exists: bool) -> (task: Task)
    ensures
        task@ == dispatched(target@, exists),
{
    if exists {
        Task::Update(UpdateState::begin(target.path.as_str()))
    } else {
        let description: Option<String> = match &target.description {
            Some(text) => Some(text.clone()),
            None => None,
        };
        Task::Init(
            InitState::begin(
                MirrorTarget { path: target.path.clone(), url: target.url.clone(), description },
            ),
        )
    }
}

impl Task {
    /// The outcome of the task: `None` while it is under way.
    pub fn outcome(&self) -> (outcome: Option<SyncOutcome>)
        ensures
            match outcome {
                Some(o) => self@.outcome() == Some(o@),
                None => self@.outcome().is_none(),
            },
    {
        match self {
            Task::Init(state) => match state.result() {
                Some(Ok(_)) => Some(SyncOutcome::Initialized),
                Some(Err(e)) => Some(SyncOutcome::InitFailed(e)),
                None => None,
            },
            Task::Update(state) => match state.result() {
                Some(Ok(_)) => Some(SyncOutcome::Updated),
                Some(Err(e)) => Some(SyncOutcome::UpdateFailed(e)),
                None => None,
            },
        }
    }
}

/// The record of one attempt: the mirror it was made on, and how it ended.
#[derive(Clone, Debug, PartialEq, Eq)]
pub struct ProjectReport {
    pub path: String,
    pub outcome: SyncOutcome,
}

/// The model of a [`ProjectReport`].
pub struct ProjectReportView {
    pub path: Seq<char>,
    pub outcome: SyncOutcomeView,
}

impl View for ProjectReport {
    type V = ProjectReportView;

    open spec fn view(&self) -> ProjectReportView {
        ProjectReportView { path: self.path@, outcome: self.outcome@ }
    }
}

impl DeepView for ProjectReport {
    type V = ProjectReportView;

    open spec fn deep_view(&self) -> ProjectReportView {
        self@
    }
}

/// What formatting with `{:?}` makes of a string: the string between
/// double quotes, with the characters that cannot stand there written as
/// escapes.
pub uninterp spec fn debug_quoted(text: Seq<char>) -> Seq<char>;

/// Formats `text` with the `Debug` implementation of `str`. The contract
/// gives the result its name and claims nothing else of it.
#[verifier::external_body]
fn quote(text: &str) -> (quoted: String)
    ensures
        quoted@ == debug_quoted(text@),
{
    format!("{:?}", text)
}

impl ProjectReportView {
    /// The line that tells the operator of this attempt.
    pub open spec fn line(self) -> Seq<char> {
        match self.outcome {
            SyncOutcomeView::Initialized => "Initialized repository "@ + debug_quoted(self.path),
            SyncOutcomeView::Updated => "Updated repository "@ + debug_quoted(self.path),
            SyncOutcomeView::InitFailed(e) => "Error initializing repository "@ + debug_quoted(
                self.path,
            ) + "; "@ + e.cause,
            SyncOutcomeView::UpdateFailed(e) => "Error updating repository "@ + debug_quoted(
                self.path,
            ) + "; "@ + e.cause,
        }
    }
}

impl ProjectReport {
    /// Whether the attempt failed.
    pub fn is_failure(&self) -> (failed: bool)
        ensures
            failed == self@.outcome.is_failure(),
    {
        match &self.outcome {
            SyncOutcome::InitFailed(_) => true,
            SyncOutcome::UpdateFailed(_) => true,
            _ => false,
        }
    }

    /// The line that tells the operator of this attempt: what was done or
    /// what went wrong, the quoted path of the mirror and, for a failure,
    /// its cause.
    pub fn message(&self) -> (line: String)
        ensures
            line@ == self@.line(),
    {
        let quoted: String = quote(self.path.as_str());
        match &self.outcome {
            SyncOutcome::Initialized => {
                let mut line = String::from_str("Initialized repository ");
                line.append(quoted.as_str());
                line
            },
            SyncOutcome::Updated => {
                let mut line = String::from_str("Updated repository ");
                line.append(quoted.as_str());
                line
            },
            SyncOutcome::InitFailed(e) => {
                let mut line = String::from_str("Error initializing repository ");
                line.append(quoted.as_str());
                line.append("; ");
                line.append(e.cause.as_str());
                line
            },
            SyncOutcome::UpdateFailed(e) => {
                let mut line = String::from_str("Error updating repository ");
                line.append(quoted.as_str());
                line.append("; ");
                line.append(e.cause.as_str());
                line
            },
        }
    }
}

/// One pass over the targets: those that were attempted have a report, and
/// the first one without is next. A pass is made by [`SyncRun::new`] and
/// changed by [`SyncRun::record`] alone, so that [`SyncRunView::wf`] holds
/// of it throughout.
pub struct SyncRun {
    targets: Vec<MirrorTarget>,
    reports: Vec<ProjectReport>,
}

/// The model of a [`SyncRun`].
pub struct SyncRunView {
    pub targets: Seq<MirrorTargetView>,
    pub reports: Seq<ProjectReportView>,
}

impl SyncRunView {
    /// The pass over `targets` before any attempt.
    pub open spec fn start(targets: Seq<MirrorTargetView>) -> SyncRunView {
        SyncRunView { targets, reports: Seq::empty() }
    }

    /// There is one report for each target that was attempted, in order,
    /// and each is filed under the path of its target.
    pub open spec fn wf(self) -> bool {
        &&& self.reports.len() <= self.targets.len()
        &&& forall|i: int|
            0 <= i < self.reports.len() ==> (#[trigger] self.reports[i]).path
                == self.targets[i].path
    }

    /// Whether every target has been attempted.
    pub open spec fn is_finished(self) -> bool {
        self.reports.len() >= self.targets.len()
    }

    /// The target to attempt next; none when the pass is finished.
    pub open spec fn current(self) -> Option<MirrorTargetView> {
        if self.is_finished() {
            None
        } else {
            Some(self.targets[self.reports.len() as int])
        }
    }

    /// The pass after the attempt on the current target ended with
    /// `outcome`. A finished pass takes no more reports.
    pub open spec fn record(self, outcome: SyncOutcomeView) -> SyncRunView {
        if self.is_finished() {
            self
        } else {
            SyncRunView {
                targets: self.targets,
                reports: self.reports.push(
                    ProjectReportView { path: self.targets[self.reports.len() as int].path, outcome },
                ),
            }
        }
    }

    /// The pass after the attempts, one after the other, ended with
    /// `outcomes`.
    pub open spec fn record_all(self, outcomes: Seq<SyncOutcomeView>) -> SyncRunView
        decreases outcomes.len(),
    {
        if outcomes.len() == 0 {
            self
        } else {
            self.record(outcomes[0]).record_all(outcomes.drop_first())
        }
    }
}

impl View for SyncRun {
    type V = SyncRunView;

    closed spec fn view(&self) -> SyncRunView {
        SyncRunView { targets: self.targets.deep_view(), reports: self.reports.deep_view() }
    }
}

impl SyncRun {
    /// Starts a pass over the projects that `config` declares.
    pub fn new(config: &Config) -> (run: SyncRun)
        ensures
            run@ == SyncRunView::start(planned(config@)),
            run@.wf(),
    {
        let targets: Vec<MirrorTarget> = plan(config);
        let reports: Vec<ProjectReport> = Vec::new();
        assert(reports.deep_view() =~= Seq::<ProjectReportView>::empty());
        SyncRun { targets, reports }
    }

    /// Whether every target has been attempted.
    pub fn is_finished(&self) -> (finished: bool)
        ensures
            finished == self@.is_finished(),
    {
        self.reports.len() >= self.targets.len()
    }

    /// The target to attempt next, or `None` when the pass is finished.
    pub fn current(&self) -> (target: Option<&MirrorTarget>)
        ensures
            match target {
                Some(t) => self@.current() == Some(t@),
                None => self@.current().is_none(),
            },
    {
        if self.reports.len() < self.targets.len() {
            Some(&self.targets[self.reports.len()])
        } else {
            None
        }
    }

    /// Records how the attempt on the current target ended, and moves on
    /// to the next target. On a finished pass nothing changes.
    pub fn record(&mut self, outcome: SyncOutcome)
        ensures
            final(self)@ == old(self)@.record(outcome@),
            old(self)@.wf() ==> final(self)@.wf(),
    {
        let done: usize = self.reports.len();
        if done < self.targets.len() {
            let path: String = self.targets[done].path.clone();
            let ghost before = self.reports.deep_view();
            self.reports.push(ProjectReport { path, outcome });
            assert(self.reports.deep_view() =~= before.push(
                ProjectReportView { path: self.targets[done as int].path@, outcome: outcome@ },
            ));
        }
    }

    /// The reports of the attempts made so far, in the order of the
    /// targets.
    pub fn reports(&self) -> (reports: &Vec<ProjectReport>)
        ensures
            reports.deep_view() == self@.reports,
    {
        &self.reports
    }
}

/// What a task starts with depends on nothing but whether the path
/// exists: the first operation on an existing mirror is to open the
/// repository at the target's path, the first operation on a missing one
/// is to clone the target's URL into that path.
pub proof fn lemma_dispatch_first_operation(target: MirrorTargetView, exists: bool)
    ensures
        exists ==> (dispatched(target, exists) matches TaskView::Update(s) && s.pending() == Some(
            UpdateActionView::Open { path: target.path },
        )),
        !exists ==> (dispatched(target, exists) matches TaskView::Init(s) && s.pending() == Some(
            InitActionView::Clone { url: target.url, path: target.path },
        )),
        dispatched(target, exists).outcome() is None,
{
}

/// Recording keeps a pass well-formed and files each report behind those
/// that are there: after `outcomes.len()` further attempts, none of which
/// goes beyond the last target, the reports are the earlier ones followed
/// by one for each attempt, made of the path of the target whose turn it
/// was and of the outcome that came in for it.
pub proof fn lemma_record_all(run: SyncRunView, outcomes: Seq<SyncOutcomeView>)
    requires
        run.wf(),
        run.reports.len() + outcomes.len() <= run.targets.len(),
    ensures
        run.record_all(outcomes).wf(),
        run.record_all(outcomes).targets == run.targets,
        run.record_all(outcomes).reports == run.reports + Seq::new(
            outcomes.len(),
            |i: int|
                ProjectReportView {
                    path: run.targets[run.reports.len() + i].path,
                    outcome: outcomes[i],
                },
        ),
    decreases outcomes.len(),
{
    let done: int = run.reports.len() as int;
    let filed = Seq::new(
        outcomes.len(),
        |i: int| ProjectReportView { path: run.targets[done + i].path, outcome: outcomes[i] },
    );
    if outcomes.len() == 0 {
        assert(run.reports + filed =~= run.reports);
    } else {
        let next = run.record(outcomes[0]);
        let rest = outcomes.drop_first();
        lemma_record_all(next, rest);
        let filed_rest = Seq::new(
            rest.len(),
            |i: int| ProjectReportView { path: next.targets[done + 1 + i].path, outcome: rest[i] },
        );
        assert(next.reports + filed_rest =~= run.reports + filed);
    }
}

/// Every project gets exactly one attempt, whatever happens to the
/// others. A pass over `targets` that takes in one outcome per target is
/// finished; it holds one report per target, in order, and the report of
/// a target is made of its own path and its own outcome alone.
pub proof fn lemma_every_project_attempted_once(
    targets: Seq<MirrorTargetView>,
    outcomes: Seq<SyncOutcomeView>,
)
    requires
        outcomes.len() == targets.len(),
    ensures
        SyncRunView::start(targets).record_all(outcomes).is_finished(),
        SyncRunView::start(targets).record_all(outcomes).reports.len() == targets.len(),
        forall|i: int|
            0 <= i < targets.len() ==> #[trigger] SyncRunView::start(targets).record_all(
                outcomes,
            ).reports[i] == (ProjectReportView { path: targets[i].path, outcome: outcomes[i] }),
{
    lemma_record_all(SyncRunView::start(targets), outcomes);
}

/// A failure does not stop the pass. After the first `done` attempts, in
/// whatever way they ended, the next target is the one at position `done`.
pub proof fn lemma_failures_do_not_stop_the_pass(
    targets: Seq<MirrorTargetView>,
    outcomes: Seq<SyncOutcomeView>,
)
    requires
        outcomes.len() < targets.len(),
    ensures
        SyncRunView::start(targets).record_all(outcomes).current() == Some(
            targets[outcomes.len() as int],
        ),
{
    lemma_record_all(SyncRunView::start(targets), outcomes);
}

/// No outcome has a bearing on another project. Two passes over the same
/// targets that agree on the outcome for the target at position `i` agree
/// on its report, however the other attempts ended.
pub proof fn lemma_projects_are_isolated(
    targets: Seq<MirrorTargetView>,
    a: Seq<SyncOutcomeView>,
    b: Seq<SyncOutcomeView>,
    i: int,
)
    requires
        a.len() == targets.len(),
        b.len() == targets.len(),
        0 <= i < targets.len(),
        a[i] == b[i],
    ensures
        SyncRunView::start(targets).record_all(a).reports[i] == SyncRunView::start(
            targets,
        ).record_all(b).reports[i],
{
    lemma_every_project_attempted_once(targets, a);
    lemma_every_project_attempted_once(targets, b);
}

} // verus!
