use git_mirror::config::Config;
use git_mirror::config::ProjectConfig;
use git_mirror::init::InitAction;
use git_mirror::init::InitError;
use git_mirror::init::InitErrorKind;
use git_mirror::init::InitState;
use git_mirror::resolve::MirrorTarget;
use git_mirror::sync::dispatch;
use git_mirror::sync::ProjectReport;
use git_mirror::sync::SyncOutcome;
use git_mirror::sync::SyncRun;
use git_mirror::sync::Task;
use git_mirror::outcome::StepOutcome;
use git_mirror::update::UpdateAction;
use git_mirror::update::UpdateError;
use git_mirror::update::UpdateErrorKind;
use git_mirror::update::UpdateState;

fn project(url: &str, description: Option<&str>) -> ProjectConfig {
    ProjectConfig {
        name: None,
        path: None,
        url: url.to_string(),
        description: description.map(|d| d.to_string()),
    }
}

fn demo_target() -> MirrorTarget {
    MirrorTarget {
        path: "/mirrors/app".to_string(),
        url: "https://example.test/org/app.git".to_string(),
        description: Some("demo".to_string()),
    }
}

fn update_failed(kind: UpdateErrorKind, cause: &str) -> SyncOutcome {
    SyncOutcome::UpdateFailed(UpdateError { kind, cause: cause.to_string() })
}

fn init_failed(kind: InitErrorKind, cause: &str) -> SyncOutcome {
    SyncOutcome::InitFailed(InitError { kind, cause: cause.to_string() })
}

fn finish(mut task: Task, outcomes: Vec<StepOutcome>) -> SyncOutcome {
    for outcome in outcomes {
        task = match task {
            Task::Init(state) => Task::Init(state.advance(outcome)),
            Task::Update(state) => Task::Update(state.advance(outcome)),
        };
    }
    task.outcome().unwrap()
}

#[test]
fn existing_mirror_is_updated() {
    let task = dispatch(&demo_target(), true);
    assert_eq!(task, Task::Update(UpdateState::begin("/mirrors/app")));
    assert_eq!(task.outcome(), None);
    match task {
        Task::Update(state) => assert_eq!(
            state.pending(),
            Some(UpdateAction::Open { path: "/mirrors/app".to_string() })
        ),
        Task::Init(_) => panic!("an existing mirror must be updated"),
    }
}

#[test]
fn missing_mirror_is_initialised() {
    let task = dispatch(&demo_target(), false);
    assert_eq!(task, Task::Init(InitState::begin(demo_target())));
    assert_eq!(task.outcome(), None);
}

#[test]
fn task_outcome_tells_init_from_update() {
    let done = finish(dispatch(&demo_target(), false), vec![StepOutcome::Done, StepOutcome::Done]);
    assert_eq!(done, SyncOutcome::Initialized);
    let failed = finish(
        dispatch(&demo_target(), false),
        vec![StepOutcome::Failed("no route to host".to_string())],
    );
    assert_eq!(failed, init_failed(InitErrorKind::CloneFailed, "no route to host"));
    let failed = finish(
        dispatch(&demo_target(), true),
        vec![StepOutcome::Failed("not a repository".to_string())],
    );
    assert_eq!(failed, update_failed(UpdateErrorKind::NotARepository, "not a repository"));
    let done = finish(
        dispatch(&demo_target(), true),
        vec![
            StepOutcome::Done,
            StepOutcome::Done,
            StepOutcome::Branch("refs/heads/main".to_string()),
            StepOutcome::Done,
            StepOutcome::Commit("abc".to_string()),
            StepOutcome::Done,
            StepOutcome::Done,
            StepOutcome::Done,
        ],
    );
    assert_eq!(done, SyncOutcome::Updated);
}

#[test]
fn end_to_end_example() {
    let config = Config {
        default_path: "/mirrors".to_string(),
        projects: Some(vec![project("https://example.test/org/app.git", Some("demo"))]),
    };
    let mut run = SyncRun::new(&config);
    let target = run.current().unwrap().clone();
    assert_eq!(target, demo_target());
    let mut state = match dispatch(&target, false) {
        Task::Init(state) => state,
        Task::Update(_) => panic!("a missing mirror must be initialised"),
    };
    assert_eq!(
        state.pending(),
        Some(InitAction::Clone {
            url: "https://example.test/org/app.git".to_string(),
            path: "/mirrors/app".to_string(),
        })
    );
    state = state.advance(StepOutcome::Done);
    assert_eq!(
        state.pending(),
        Some(InitAction::WriteDescription {
            file: "/mirrors/app/.git/description".to_string(),
            text: "demo".to_string(),
        })
    );
    state = state.advance(StepOutcome::Done);
    let outcome = Task::Init(state).outcome().unwrap();
    assert_eq!(outcome, SyncOutcome::Initialized);
    run.record(outcome);
    assert!(run.is_finished());
    assert_eq!(run.current(), None);
    assert_eq!(run.reports().len(), 1);
    assert_eq!(run.reports()[0].message(), "Initialized repository \"/mirrors/app\"");
}

#[test]
fn failing_project_does_not_stop_the_batch() {
    let config = Config {
        default_path: "/mirrors".to_string(),
        projects: Some(vec![
            project("https://unreachable.invalid/org/broken.git", None),
            project("https://example.test/org/app.git", None),
        ]),
    };
    let mut run = SyncRun::new(&config);
    assert!(!run.is_finished());
    assert_eq!(run.current().unwrap().path, "/mirrors/broken");
    let broken = finish(
        dispatch(run.current().unwrap(), false),
        vec![StepOutcome::Failed("failed to resolve address".to_string())],
    );
    run.record(broken);
    assert!(!run.is_finished());
    assert_eq!(run.current().unwrap().path, "/mirrors/app");
    let fine = finish(dispatch(run.current().unwrap(), false), vec![StepOutcome::Done]);
    run.record(fine);
    assert!(run.is_finished());
    assert_eq!(
        run.reports(),
        &vec![
            ProjectReport {
                path: "/mirrors/broken".to_string(),
                outcome: init_failed(InitErrorKind::CloneFailed, "failed to resolve address"),
            },
            ProjectReport { path: "/mirrors/app".to_string(), outcome: SyncOutcome::Initialized },
        ]
    );
    assert!(run.reports()[0].is_failure());
    assert!(!run.reports()[1].is_failure());
}

#[test]
fn every_project_is_attempted_once() {
    let config = Config {
        default_path: "/mirrors".to_string(),
        projects: Some(vec![
            project("https://h/o/a.git", None),
            project("https://h/o/b.git", None),
            project("https://h/o/c.git", None),
        ]),
    };
    let outcomes = vec![
        update_failed(UpdateErrorKind::FetchFailed, "early EOF"),
        SyncOutcome::Updated,
        init_failed(InitErrorKind::DescriptionWriteFailed, "read-only file system"),
    ];
    let mut run = SyncRun::new(&config);
    let mut attempted = Vec::new();
    for outcome in outcomes.clone() {
        attempted.push(run.current().unwrap().path.clone());
        run.record(outcome);
    }
    assert_eq!(attempted, vec!["/mirrors/a", "/mirrors/b", "/mirrors/c"]);
    assert!(run.is_finished());
    assert_eq!(run.reports().len(), 3);
    for i in 0..3 {
        assert_eq!(run.reports()[i].path, attempted[i]);
        assert_eq!(run.reports()[i].outcome, outcomes[i]);
    }
}

#[test]
fn finished_pass_takes_no_more_reports() {
    let config = Config {
        default_path: "/mirrors".to_string(),
        projects: Some(vec![project("https://h/o/a.git", None)]),
    };
    let mut run = SyncRun::new(&config);
    run.record(SyncOutcome::Updated);
    run.record(SyncOutcome::Initialized);
    assert_eq!(run.reports().len(), 1);
    assert_eq!(run.reports()[0].outcome, SyncOutcome::Updated);
}

#[test]
fn pass_without_projects_is_finished_at_once() {
    let config = Config { default_path: "/mirrors".to_string(), projects: None };
    let mut run = SyncRun::new(&config);
    assert!(run.is_finished());
    assert_eq!(run.current(), None);
    run.record(SyncOutcome::Updated);
    assert!(run.reports().is_empty());
}

#[test]
fn message_of_a_failed_update() {
    let report = ProjectReport {
        path: "/mirrors/app".to_string(),
        outcome: update_failed(UpdateErrorKind::ConnectFailed, "could not resolve host"),
    };
    assert_eq!(
        report.message(),
        "Error updating repository \"/mirrors/app\"; could not resolve host"
    );
    assert!(report.is_failure());
}

#[test]
fn message_of_a_failed_initialisation() {
    let report = ProjectReport {
        path: "/mirrors/app".to_string(),
        outcome: init_failed(InitErrorKind::CloneFailed, "authentication required"),
    };
    assert_eq!(
        report.message(),
        "Error initializing repository \"/mirrors/app\"; authentication required"
    );
    assert!(report.is_failure());
}

#[test]
fn message_of_a_success() {
    let updated =
        ProjectReport { path: "/mirrors/app".to_string(), outcome: SyncOutcome::Updated };
    assert_eq!(updated.message(), "Updated repository \"/mirrors/app\"");
    assert!(!updated.is_failure());
    let initialized =
        ProjectReport { path: "/mirrors/app".to_string(), outcome: SyncOutcome::Initialized };
    assert_eq!(initialized.message(), "Initialized repository \"/mirrors/app\"");
    assert!(!initialized.is_failure());
}

#[test]
fn message_quotes_the_path_as_debug_formatting_does() {
    let path = "/mirrors/odd \"name\"\n";
    let report = ProjectReport { path: path.to_string(), outcome: SyncOutcome::Updated };
    assert_eq!(report.message(), format!("Updated repository {:?}", path));
    assert_eq!(report.message(), "Updated repository \"/mirrors/odd \\\"name\\\"\\n\"");
}
