use agentrix::api::StatusHint;
use agentrix::cloning::{
    clone_action, clone_begin, clone_step, CloneAction, CloneError, CloneEvent, CloneState,
    CloneStep, ProbeOutcome,
};
use agentrix::worktree::{
    worktree_action, worktree_begin, worktree_step, WorktreeAction, WorktreeError,
    WorktreeEvent, WorktreeStep,
};

fn expect_clone_state(step: CloneStep) -> CloneState {
    match step {
        CloneStep::Continue(state) => state,
        other => panic!("expected the flow to continue, got {:?}", other),
    }
}

fn expect_worktree_state(step: WorktreeStep) -> agentrix::worktree::WorktreeState {
    match step {
        WorktreeStep::Continue(state) => state,
        other => panic!("expected the flow to continue, got {:?}", other),
    }
}

#[test]
fn clone_session_errors_when_repository_already_exists() {
    let state = expect_clone_state(clone_begin("https://github.com/org/repo.git", "workdir"));
    match clone_action(&state) {
        CloneAction::ProbeTarget(target) => assert_eq!(target, "workdir/org/repo"),
        other => panic!("expected a probe, got {:?}", other),
    }
    let out = clone_step(state, CloneEvent::TargetProbed(ProbeOutcome::Found));
    match out {
        CloneStep::Fail(err) => {
            assert!(
                err.message().contains("already exists"),
                "unexpected message: {}",
                err.message()
            );
            assert_eq!(err.status_hint(), StatusHint::Conflict);
        }
        other => panic!("expected conflict error, got {:?}", other),
    }
}

#[test]
fn clone_session_cleans_up_after_failed_clone() {
    let url = "file:///nonexistent/path/to/repo.git";
    let state = expect_clone_state(clone_begin(url, "workdir"));
    let state = expect_clone_state(clone_step(
        state,
        CloneEvent::TargetProbed(ProbeOutcome::Missing),
    ));
    match clone_action(&state) {
        CloneAction::CreateParentDir(parent) => assert_eq!(parent, "workdir/to"),
        other => panic!("expected parent creation, got {:?}", other),
    }
    let state = expect_clone_state(clone_step(state, CloneEvent::ParentCreated(true)));
    match clone_action(&state) {
        CloneAction::RunClone { url: u, target } => {
            assert_eq!(u, url);
            assert_eq!(target, "workdir/to/repo");
        }
        other => panic!("expected the clone to run, got {:?}", other),
    }
    let state = expect_clone_state(clone_step(
        state,
        CloneEvent::CloneFinished {
            success: false,
            stderr: "fatal: repository not found".to_string(),
        },
    ));
    match clone_action(&state) {
        CloneAction::RemoveTarget(target) => {
            assert_eq!(
                target, "workdir/to/repo",
                "target directory should be cleaned up on failure"
            );
        }
        other => panic!("expected removal of the target, got {:?}", other),
    }
    match clone_step(state, CloneEvent::TargetRemoved(false)) {
        CloneStep::Fail(CloneError::CloneFailed(stderr)) => {
            assert_eq!(stderr, "fatal: repository not found");
        }
        other => panic!("expected the clone failure to surface, got {:?}", other),
    }
}

#[test]
fn clone_session_clones_repository_from_file_url() {
    let url = "file:///remotes/afx-hedge-fund/platform.git";
    let state = expect_clone_state(clone_begin(url, "workdir"));
    let state = expect_clone_state(clone_step(
        state,
        CloneEvent::TargetProbed(ProbeOutcome::Missing),
    ));
    let state = expect_clone_state(clone_step(state, CloneEvent::ParentCreated(true)));
    match clone_step(
        state,
        CloneEvent::CloneFinished { success: true, stderr: String::new() },
    ) {
        CloneStep::Done(resp) => {
            assert_eq!(resp.workspace, "afx-hedge-fund");
            assert_eq!(resp.repository, "platform");
            assert_eq!(resp.path, "workdir/afx-hedge-fund/platform");
        }
        other => panic!("clone succeeds, got {:?}", other),
    }
}

#[test]
fn clone_rejects_invalid_reference_before_any_action() {
    match clone_begin("   ", "workdir") {
        CloneStep::Fail(err) => {
            assert!(matches!(err, CloneError::InvalidUrl(_)));
            assert_eq!(err.status_hint(), StatusHint::BadInput);
            assert!(err.message().contains("cannot be empty"));
        }
        other => panic!("expected a rejected reference, got {:?}", other),
    }
}

#[test]
fn clone_reports_a_failed_inspection() {
    let state = expect_clone_state(clone_begin("org/repo", "workdir"));
    match clone_step(state, CloneEvent::TargetProbed(ProbeOutcome::Failed)) {
        CloneStep::Fail(err) => {
            assert!(matches!(err, CloneError::InspectionFailed));
            assert_eq!(err.status_hint(), StatusHint::Internal);
            assert_eq!(err.message(), "failed to inspect repository directory");
        }
        other => panic!("expected an inspection failure, got {:?}", other),
    }
}

#[test]
fn clone_reports_a_failed_workspace_dir_creation() {
    let state = expect_clone_state(clone_begin("org/repo", "workdir"));
    let state = expect_clone_state(clone_step(
        state,
        CloneEvent::TargetProbed(ProbeOutcome::Missing),
    ));
    match clone_step(state, CloneEvent::ParentCreated(false)) {
        CloneStep::Fail(err) => {
            assert!(matches!(err, CloneError::WorkspaceDirCreationFailed));
            assert_eq!(err.message(), "failed to prepare workspace directory");
        }
        other => panic!("expected a directory-creation failure, got {:?}", other),
    }
}

#[test]
fn rejects_empty_branch_names() {
    match worktree_begin("repo", "workspace", "repository", "   ", "worktrees") {
        WorktreeStep::Fail(err) => {
            assert!(err.message().contains("branch name cannot be empty"));
            assert_eq!(err.status_hint(), StatusHint::BadInput);
        }
        other => panic!("expected the empty branch to be rejected, got {:?}", other),
    }
}

#[test]
fn errors_when_repo_is_not_git_repo() {
    let state = expect_worktree_state(worktree_begin(
        "repo",
        "workspace",
        "repository",
        "feature/one",
        "worktrees",
    ));
    match worktree_action(&state) {
        WorktreeAction::ProbeGitDir(path) => assert_eq!(path, "repo/.git"),
        other => panic!("expected a metadata probe, got {:?}", other),
    }
    match worktree_step(state, WorktreeEvent::GitDirProbed(false)) {
        WorktreeStep::Fail(err) => {
            assert!(err.message().contains("repo is not a git repository"));
            assert_eq!(err.status_hint(), StatusHint::NotFound);
        }
        other => panic!("expected a non-repository error, got {:?}", other),
    }
}

#[test]
fn creates_worktree_in_custom_directory() {
    let state = expect_worktree_state(worktree_begin(
        "repo",
        "afx-hedge-fund",
        "platform",
        "feat/new-feature",
        "worktrees",
    ));
    let state = expect_worktree_state(worktree_step(state, WorktreeEvent::GitDirProbed(true)));
    match worktree_action(&state) {
        WorktreeAction::CreateParentDir(parent) => {
            assert_eq!(parent, "worktrees/afx-hedge-fund/platform");
        }
        other => panic!("expected parent creation, got {:?}", other),
    }
    let state = expect_worktree_state(worktree_step(state, WorktreeEvent::ParentCreated(true)));
    match worktree_action(&state) {
        WorktreeAction::RunWorktreeAdd { repo_path, branch, target } => {
            assert_eq!(repo_path, "repo");
            assert_eq!(branch, "feat/new-feature");
            assert_eq!(target, "worktrees/afx-hedge-fund/platform/feat_new-feature");
        }
        other => panic!("expected the worktree command, got {:?}", other),
    }
    match worktree_step(
        state,
        WorktreeEvent::WorktreeAddFinished { success: true, stderr: String::new() },
    ) {
        WorktreeStep::Done(resp) => {
            assert!(resp.path.starts_with("worktrees/afx-hedge-fund/platform/feat_new-feature"));
        }
        other => panic!("worktree creation succeeds, got {:?}", other),
    }
}

#[test]
fn create_worktree_trims_branch_names_before_creation() {
    let state = expect_worktree_state(worktree_begin(
        "repo",
        "org",
        "project",
        "  feat/spaced  ",
        "worktrees",
    ));
    let state = expect_worktree_state(worktree_step(state, WorktreeEvent::GitDirProbed(true)));
    let state = expect_worktree_state(worktree_step(state, WorktreeEvent::ParentCreated(true)));
    match worktree_step(
        state,
        WorktreeEvent::WorktreeAddFinished { success: true, stderr: String::new() },
    ) {
        WorktreeStep::Done(resp) => {
            assert_eq!(resp.branch, "feat/spaced");
            assert!(resp.path.ends_with("feat_spaced"));
        }
        other => panic!("request succeeds, got {:?}", other),
    }
}

#[test]
fn worktree_reports_a_failed_parent_creation() {
    let state = expect_worktree_state(worktree_begin(
        "repo",
        "org",
        "project",
        "main",
        "worktrees",
    ));
    let state = expect_worktree_state(worktree_step(state, WorktreeEvent::GitDirProbed(true)));
    match worktree_step(state, WorktreeEvent::ParentCreated(false)) {
        WorktreeStep::Fail(err) => {
            assert!(matches!(err, WorktreeError::WorktreeDirCreationFailed));
            assert_eq!(err.status_hint(), StatusHint::Internal);
        }
        other => panic!("expected a directory-creation failure, got {:?}", other),
    }
}

#[test]
fn duplicate_branch_failure_surfaces_with_its_stderr() {
    let state = expect_worktree_state(worktree_begin(
        "repo",
        "org",
        "project",
        "taken",
        "worktrees",
    ));
    let state = expect_worktree_state(worktree_step(state, WorktreeEvent::GitDirProbed(true)));
    let state = expect_worktree_state(worktree_step(state, WorktreeEvent::ParentCreated(true)));
    match worktree_step(
        state,
        WorktreeEvent::WorktreeAddFinished {
            success: false,
            stderr: "fatal: a branch named 'taken' already exists".to_string(),
        },
    ) {
        WorktreeStep::Fail(err) => {
            assert_eq!(
                err.message(),
                "git worktree add failed: fatal: a branch named 'taken' already exists"
            );
            assert_eq!(err.status_hint(), StatusHint::Internal);
        }
        other => panic!("expected the external failure to surface, got {:?}", other),
    }
}
