use git_mirror::outcome::StepOutcome;
use git_mirror::update::UpdateAction;
use git_mirror::update::UpdateError;
use git_mirror::update::UpdateErrorKind;
use git_mirror::update::UpdateState;

const BRANCH: &str = "refs/heads/main";
const COMMIT: &str = "0123456789abcdef0123456789abcdef01234567";

fn success_outcomes() -> Vec<StepOutcome> {
    vec![
        StepOutcome::Done,
        StepOutcome::Done,
        StepOutcome::Branch(BRANCH.to_string()),
        StepOutcome::Done,
        StepOutcome::Commit(COMMIT.to_string()),
        StepOutcome::Done,
        StepOutcome::Done,
        StepOutcome::Done,
    ]
}

fn drive(path: &str, outcomes: Vec<StepOutcome>) -> (Vec<UpdateAction>, UpdateState) {
    let mut state = UpdateState::begin(path);
    let mut actions = Vec::new();
    for outcome in outcomes {
        match state.pending() {
            Some(action) => actions.push(action),
            None => break,
        }
        state = state.advance(outcome);
    }
    (actions, state)
}

fn fail_at(step: usize, cause: &str) -> (Vec<UpdateAction>, UpdateState) {
    let mut outcomes = success_outcomes();
    outcomes[step] = StepOutcome::Failed(cause.to_string());
    drive("/mirrors/app", outcomes)
}

fn failed(kind: UpdateErrorKind, cause: &str) -> UpdateState {
    UpdateState::Failed(UpdateError { kind, cause: cause.to_string() })
}

#[test]
fn update_begins_by_opening_the_repository() {
    let state = UpdateState::begin("/mirrors/app");
    assert_eq!(state, UpdateState::Opening { path: "/mirrors/app".to_string() });
    assert_eq!(state.pending(), Some(UpdateAction::Open { path: "/mirrors/app".to_string() }));
    assert!(!state.is_terminal());
    assert_eq!(state.result(), None);
}

#[test]
fn successful_update_runs_the_eight_steps_in_order() {
    let (actions, state) = drive("/mirrors/app", success_outcomes());
    assert_eq!(
        actions,
        vec![
            UpdateAction::Open { path: "/mirrors/app".to_string() },
            UpdateAction::FindRemote { name: "origin".to_string() },
            UpdateAction::DiscoverDefaultBranch,
            UpdateAction::Fetch { branch: BRANCH.to_string(), prune: true },
            UpdateAction::ResolveFetchHead,
            UpdateAction::SetBranchTarget { branch: BRANCH.to_string(), commit: COMMIT.to_string() },
            UpdateAction::SetHead { branch: BRANCH.to_string() },
            UpdateAction::CheckoutHead { force: true },
        ]
    );
    assert_eq!(state, UpdateState::Updated);
    assert!(state.is_terminal());
    assert_eq!(state.pending(), None);
    assert_eq!(state.result(), Some(Ok(())));
}

#[test]
fn update_is_under_way_until_the_last_step() {
    let mut state = UpdateState::begin("/mirrors/app");
    for outcome in success_outcomes() {
        assert!(!state.is_terminal());
        assert!(state.pending().is_some());
        assert_eq!(state.result(), None);
        state = state.advance(outcome);
    }
    assert!(state.is_terminal());
}

#[test]
fn failure_to_open_is_not_a_repository() {
    let (actions, state) = fail_at(0, "no repository found");
    assert_eq!(actions.len(), 1);
    assert_eq!(state, failed(UpdateErrorKind::NotARepository, "no repository found"));
    assert_eq!(state.pending(), None);
    assert_eq!(
        state.result(),
        Some(Err(UpdateError {
            kind: UpdateErrorKind::NotARepository,
            cause: "no repository found".to_string(),
        }))
    );
}

#[test]
fn failure_to_find_the_remote_is_no_origin() {
    let (actions, state) = fail_at(1, "remote 'origin' does not exist");
    assert_eq!(actions.len(), 2);
    assert_eq!(state, failed(UpdateErrorKind::NoOrigin, "remote 'origin' does not exist"));
}

#[test]
fn failure_to_connect_is_connect_failed() {
    let (actions, state) = fail_at(2, "could not resolve host");
    assert_eq!(actions.len(), 3);
    assert_eq!(state, failed(UpdateErrorKind::ConnectFailed, "could not resolve host"));
}

#[test]
fn failure_to_fetch_is_fetch_failed() {
    let (actions, state) = fail_at(3, "early EOF");
    assert_eq!(actions.len(), 4);
    assert_eq!(
        actions[3],
        UpdateAction::Fetch { branch: BRANCH.to_string(), prune: true }
    );
    assert_eq!(state, failed(UpdateErrorKind::FetchFailed, "early EOF"));
}

#[test]
fn failure_to_resolve_the_fetched_commit_is_ref_update_failed() {
    let (actions, state) = fail_at(4, "reference 'FETCH_HEAD' not found");
    assert_eq!(actions.len(), 5);
    assert_eq!(
        state,
        failed(UpdateErrorKind::RefUpdateFailed, "reference 'FETCH_HEAD' not found")
    );
}

#[test]
fn failure_to_advance_the_branch_is_ref_update_failed() {
    let (actions, state) = fail_at(5, "failed to lock reference");
    assert_eq!(actions.len(), 6);
    assert_eq!(state, failed(UpdateErrorKind::RefUpdateFailed, "failed to lock reference"));
}

#[test]
fn failure_to_switch_head_is_ref_update_failed() {
    let (actions, state) = fail_at(6, "cannot write HEAD");
    assert_eq!(actions.len(), 7);
    assert_eq!(state, failed(UpdateErrorKind::RefUpdateFailed, "cannot write HEAD"));
}

#[test]
fn failure_to_check_out_is_checkout_failed() {
    let (actions, state) = fail_at(7, "permission denied");
    assert_eq!(actions.len(), 8);
    assert_eq!(state, failed(UpdateErrorKind::CheckoutFailed, "permission denied"));
}

#[test]
fn remote_that_names_no_branch_is_connect_failed() {
    let mut outcomes = success_outcomes();
    outcomes[2] = StepOutcome::Done;
    let (actions, state) = drive("/mirrors/app", outcomes);
    assert_eq!(actions.len(), 3);
    assert_eq!(
        state,
        failed(UpdateErrorKind::ConnectFailed, "the remote did not name a default branch")
    );
    let mut outcomes = success_outcomes();
    outcomes[2] = StepOutcome::Commit(COMMIT.to_string());
    let (_, state) = drive("/mirrors/app", outcomes);
    assert_eq!(
        state,
        failed(UpdateErrorKind::ConnectFailed, "the remote did not name a default branch")
    );
}

#[test]
fn fetch_result_without_commit_is_ref_update_failed() {
    let mut outcomes = success_outcomes();
    outcomes[4] = StepOutcome::Done;
    let (actions, state) = drive("/mirrors/app", outcomes);
    assert_eq!(actions.len(), 5);
    assert_eq!(
        state,
        failed(UpdateErrorKind::RefUpdateFailed, "the fetch result did not resolve to a commit")
    );
    let mut outcomes = success_outcomes();
    outcomes[4] = StepOutcome::Branch(BRANCH.to_string());
    let (_, state) = drive("/mirrors/app", outcomes);
    assert_eq!(
        state,
        failed(UpdateErrorKind::RefUpdateFailed, "the fetch result did not resolve to a commit")
    );
}

#[test]
fn steps_that_report_nothing_ignore_what_is_reported() {
    let mut outcomes = success_outcomes();
    outcomes[0] = StepOutcome::Branch("refs/heads/ignored".to_string());
    outcomes[3] = StepOutcome::Commit("ignored".to_string());
    outcomes[7] = StepOutcome::Branch("refs/heads/ignored".to_string());
    let (actions, state) = drive("/mirrors/app", outcomes);
    assert_eq!(actions.len(), 8);
    assert_eq!(
        actions[5],
        UpdateAction::SetBranchTarget { branch: BRANCH.to_string(), commit: COMMIT.to_string() }
    );
    assert_eq!(state, UpdateState::Updated);
}

#[test]
fn finished_update_takes_no_more_outcomes() {
    let state = UpdateState::Updated;
    assert_eq!(state.advance(StepOutcome::Failed("late".to_string())), UpdateState::Updated);
    let state = failed(UpdateErrorKind::FetchFailed, "early EOF");
    assert_eq!(
        state.clone().advance(StepOutcome::Done),
        failed(UpdateErrorKind::FetchFailed, "early EOF")
    );
    assert_eq!(
        state.advance(StepOutcome::Failed("late".to_string())),
        failed(UpdateErrorKind::FetchFailed, "early EOF")
    );
}

#[test]
fn branch_is_set_to_the_fetched_commit_whatever_it_is() {
    for commit in ["aaaa", "bbbb", ""] {
        let mut outcomes = success_outcomes();
        outcomes[4] = StepOutcome::Commit(commit.to_string());
        let (actions, state) = drive("/mirrors/app", outcomes);
        assert_eq!(
            actions[5],
            UpdateAction::SetBranchTarget { branch: BRANCH.to_string(), commit: commit.to_string() }
        );
        assert_eq!(state, UpdateState::Updated);
    }
}

#[test]
fn update_follows_the_branch_the_remote_names_now() {
    let mut outcomes = success_outcomes();
    outcomes[2] = StepOutcome::Branch("refs/heads/trunk".to_string());
    let (actions, _) = drive("/mirrors/app", outcomes);
    assert_eq!(
        actions[3],
        UpdateAction::Fetch { branch: "refs/heads/trunk".to_string(), prune: true }
    );
    assert_eq!(
        actions[5],
        UpdateAction::SetBranchTarget {
            branch: "refs/heads/trunk".to_string(),
            commit: COMMIT.to_string(),
        }
    );
    assert_eq!(actions[6], UpdateAction::SetHead { branch: "refs/heads/trunk".to_string() });
}

#[test]
fn two_updates_with_the_same_outcomes_do_the_same() {
    let first = drive("/mirrors/app", success_outcomes());
    let second = drive("/mirrors/app", success_outcomes());
    assert_eq!(first, second);
}
