//! Creation of a git worktree for a branch.
//!
//! The flow validates the branch name and the repository, computes the
//! worktree's location `<worktrees_root>/<workspace>/<repository>/<sanitized
//! branch>`, and prescribes, one at a time, the outside steps the caller
//! must perform: probe the repository's metadata directory, create the
//! target's parent, and run the external worktree-creation command.  Every
//! decision between those steps is made here, on the step's reported
//! outcome.

use vstd::prelude::*;
use vstd::string::*;

use crate::api::{CreateWorktreeResponse, StatusHint};
use crate::paths::{join, join_spec};
use crate::text::{trim, trim_spec};

verus! {

/// Whether a character may stand in a worktree directory name: ASCII
/// letters, digits and `-` stay, everything else becomes `_`.
pub open spec fn keep_char(c: char) -> bool {
    ('a' <= c && c <= 'z') || ('A' <= c && c <= 'Z') || ('0' <= c && c <= '9') || c == '-'
}

/// What a branch character contributes to the directory name.
pub open spec fn sanitize_char(c: char) -> char {
    if keep_char(c) {
        c
    } else {
        '_'
    }
}

/// Every character mapped through `sanitize_char`.
pub open spec fn sanitize_seq(s: Seq<char>) -> Seq<char> {
    s.map_values(|c: char| sanitize_char(c))
}

/// The directory-safe form of a branch name: trimmed, then every character
/// that is not an ASCII letter, digit or `-` replaced with `_`.
pub open spec fn sanitize_spec(s: Seq<char>) -> Seq<char> {
    sanitize_seq(trim_spec(s))
}

/// Maps a branch name to a filesystem-safe directory segment.
pub fn sanitize_branch_name(input: &str) -> (r: String)
    ensures
        r@ == sanitize_spec(input@),
{
    let t = trim(input);
    let n = t.unicode_len();
    let mut r = String::new();
    let mut i: usize = 0;
    proof {
        assert(r@ =~= sanitize_seq(t@.take(0)));
    }
    while i < n
        invariant
            n == t@.len(),
            0 <= i <= n,
            r@ == sanitize_seq(t@.take(i as int)),
        decreases n - i,
    {
        let c = t.get_char(i);
        if ('a' <= c && c <= 'z') || ('A' <= c && c <= 'Z') || ('0' <= c && c <= '9') || c == '-' {
            let seg = t.substring_char(i, i + 1);
            proof {
                assert(seg@ =~= seq![t@[i as int]]);
            }
            r.append(seg);
        } else {
            r.append("_");
            proof {
                reveal_strlit("_");
            }
        }
        proof {
            assert(r@ =~= sanitize_seq(t@.take(i + 1)));
        }
        i = i + 1;
    }
    proof {
        assert(t@.take(n as int) =~= t@);
    }
    r
}

/// Why a worktree could not be created.
#[derive(Debug, PartialEq, Eq)]
pub enum WorktreeError {
    /// The branch name is empty once trimmed.
    EmptyBranch,
    /// The repository path (carried here) has no version-control metadata
    /// directory.
    NotAGitRepository(String),
    /// The target's parent directory could not be created.
    WorktreeDirCreationFailed,
    /// The external worktree-creation command failed; its captured standard
    /// error is carried here.
    WorktreeCreationFailed(String),
}

impl WorktreeError {
    /// The message of the error.
    pub open spec fn message_spec(&self) -> Seq<char> {
        match self {
            WorktreeError::EmptyBranch => "branch name cannot be empty"@,
            WorktreeError::NotAGitRepository(path) => path@ + " is not a git repository"@,
            WorktreeError::WorktreeDirCreationFailed => "failed to create worktree parent"@,
            WorktreeError::WorktreeCreationFailed(stderr) => "git worktree add failed: "@
                + stderr@,
        }
    }

    /// Renders the error for the caller.
    pub fn message(&self) -> (r: String)
        ensures
            r@ == self.message_spec(),
    {
        match self {
            WorktreeError::EmptyBranch => "branch name cannot be empty".to_owned(),
            WorktreeError::NotAGitRepository(path) => {
                let mut r = path.clone();
                r.append(" is not a git repository");
                r
            },
            WorktreeError::WorktreeDirCreationFailed => "failed to create worktree parent"
                .to_owned(),
            WorktreeError::WorktreeCreationFailed(stderr) => {
                let mut r = "git worktree add failed: ".to_owned();
                r.append(stderr.as_str());
                r
            },
        }
    }

    /// Which kind of failure this is: a rejected input, a missing
    /// repository, or an internal failure.
    pub fn status_hint(&self) -> (h: StatusHint)
        ensures
            h == match self {
                WorktreeError::EmptyBranch => StatusHint::BadInput,
                WorktreeError::NotAGitRepository(_) => StatusHint::NotFound,
                WorktreeError::WorktreeDirCreationFailed => StatusHint::Internal,
                WorktreeError::WorktreeCreationFailed(_) => StatusHint::Internal,
            },
    {
        match self {
            WorktreeError::EmptyBranch => StatusHint::BadInput,
            WorktreeError::NotAGitRepository(_) => StatusHint::NotFound,
            WorktreeError::WorktreeDirCreationFailed => StatusHint::Internal,
            WorktreeError::WorktreeCreationFailed(_) => StatusHint::Internal,
        }
    }
}

/// What the flow has computed up front and carries between steps.
#[derive(Debug, PartialEq, Eq)]
pub struct WorktreePlan {
    /// The repository the worktree belongs to.
    pub repo_path: String,
    /// The workspace segment of the worktree's location.
    pub workspace: String,
    /// The repository segment of the worktree's location.
    pub repository: String,
    /// The trimmed branch name, handed verbatim to the external command.
    pub branch: String,
    /// The directory-safe form of the branch name.
    pub sanitized: String,
    /// `<worktrees_root>/<workspace>/<repository>`.
    pub parent: String,
    /// `<parent>/<sanitized>`.
    pub target: String,
}

/// The plan holds exactly what the inputs dictate.
pub open spec fn plan_wf(
    p: WorktreePlan,
    repo_path: Seq<char>,
    workspace: Seq<char>,
    repository: Seq<char>,
    branch: Seq<char>,
    worktrees_root: Seq<char>,
) -> bool {
    &&& p.repo_path@ == repo_path
    &&& p.workspace@ == workspace
    &&& p.repository@ == repository
    &&& p.branch@ == trim_spec(branch)
    &&& p.sanitized@ == sanitize_spec(branch)
    &&& p.parent@ == join_spec(join_spec(worktrees_root, workspace), repository)
    &&& p.target@ == join_spec(p.parent@, p.sanitized@)
}

/// Where the flow stands: which outside step it is waiting on.
#[derive(Debug, PartialEq, Eq)]
pub enum WorktreeState {
    /// Waiting for the probe of the repository's metadata directory.
    CheckingRepo(WorktreePlan),
    /// Waiting for the creation of the target's parent directory.
    CreatingParent(WorktreePlan),
    /// Waiting for the external worktree-creation command.
    AddingWorktree(WorktreePlan),
}

/// What the flow asks its caller to perform next.
#[derive(Debug, PartialEq, Eq)]
pub enum WorktreeAction {
    /// Check whether a directory exists at the path; report the outcome
    /// with `WorktreeEvent::GitDirProbed`.
    ProbeGitDir(String),
    /// Create the directory at the path, missing parents included; report
    /// with `WorktreeEvent::ParentCreated`.
    CreateParentDir(String),
    /// Run the external `worktree add -b <branch> <target>` command with
    /// `repo_path` as working directory; report with
    /// `WorktreeEvent::WorktreeAddFinished`.
    RunWorktreeAdd { repo_path: String, branch: String, target: String },
}

/// The outcome of the performed action, reported back to the flow.
#[derive(Debug, PartialEq, Eq)]
pub enum WorktreeEvent {
    /// Whether the metadata directory exists.
    GitDirProbed(bool),
    /// Whether the parent directory was created.
    ParentCreated(bool),
    /// Whether the external command succeeded, with its captured standard
    /// error.
    WorktreeAddFinished { success: bool, stderr: String },
}

/// What the flow says after each step: go on, done, or failed.
#[derive(Debug, PartialEq, Eq)]
pub enum WorktreeStep {
    Continue(WorktreeState),
    Done(CreateWorktreeResponse),
    Fail(WorktreeError),
}

/// Whether the action writes to the filesystem or spawns a process; the
/// probe is read-only.
pub open spec fn worktree_action_mutates(a: WorktreeAction) -> bool {
    !(a is ProbeGitDir)
}

/// Which event answers the step a state waits on.
pub open spec fn worktree_event_fits(state: WorktreeState, event: WorktreeEvent) -> bool {
    match (state, event) {
        (WorktreeState::CheckingRepo(_), WorktreeEvent::GitDirProbed(_)) => true,
        (WorktreeState::CreatingParent(_), WorktreeEvent::ParentCreated(_)) => true,
        (WorktreeState::AddingWorktree(_), WorktreeEvent::WorktreeAddFinished { .. }) => true,
        _ => false,
    }
}

/// The action each state asks for.
pub open spec fn worktree_action_spec(state: WorktreeState, a: WorktreeAction) -> bool {
    match state {
        WorktreeState::CheckingRepo(p) => a matches WorktreeAction::ProbeGitDir(path)
            && path@ == join_spec(p.repo_path@, ".git"@),
        WorktreeState::CreatingParent(p) => a matches WorktreeAction::CreateParentDir(d) && d@
            == p.parent@,
        WorktreeState::AddingWorktree(p) => a matches WorktreeAction::RunWorktreeAdd {
            repo_path,
            branch,
            target,
        } && repo_path@ == p.repo_path@ && branch@ == p.branch@ && target@ == p.target@,
    }
}

/// What each step decides on each outcome.
pub open spec fn worktree_step_spec(
    state: WorktreeState,
    event: WorktreeEvent,
    r: WorktreeStep,
) -> bool {
    match (state, event) {
        (WorktreeState::CheckingRepo(p), WorktreeEvent::GitDirProbed(found)) => if found {
            r == WorktreeStep::Continue(WorktreeState::CreatingParent(p))
        } else {
            r matches WorktreeStep::Fail(WorktreeError::NotAGitRepository(path)) && path@
                == p.repo_path@
        },
        (WorktreeState::CreatingParent(p), WorktreeEvent::ParentCreated(ok)) => if ok {
            r == WorktreeStep::Continue(WorktreeState::AddingWorktree(p))
        } else {
            r == WorktreeStep::Fail(WorktreeError::WorktreeDirCreationFailed)
        },
        (
            WorktreeState::AddingWorktree(p),
            WorktreeEvent::WorktreeAddFinished { success, stderr },
        ) => if success {
            r matches WorktreeStep::Done(resp) && resp.workspace@ == p.workspace@
                && resp.repository@ == p.repository@ && resp.branch@ == p.branch@ && resp.path@
                == p.target@
        } else {
            r matches WorktreeStep::Fail(WorktreeError::WorktreeCreationFailed(e)) && e@
                == stderr@
        },
        _ => false,
    }
}

/// Starts the worktree-creation flow.  A branch that is empty once trimmed
/// is rejected at once, with nothing asked of the caller; otherwise the
/// flow computes the plan and waits on the repository probe.
pub fn worktree_begin(
    repo_path: &str,
    workspace: &str,
    repository: &str,
    branch: &str,
    worktrees_root: &str,
) -> (r: WorktreeStep)
    ensures
        trim_spec(branch@).len() == 0 ==> r == WorktreeStep::Fail(WorktreeError::EmptyBranch),
        trim_spec(branch@).len() != 0 ==> (r matches WorktreeStep::Continue(
            WorktreeState::CheckingRepo(p),
        ) && plan_wf(p, repo_path@, workspace@, repository@, branch@, worktrees_root@)),
{
    let trimmed = trim(branch);
    if trimmed.unicode_len() == 0 {
        return WorktreeStep::Fail(WorktreeError::EmptyBranch);
    }
    let sanitized = sanitize_branch_name(branch);
    let parent = join(join(worktrees_root, workspace).as_str(), repository);
    let target = join(parent.as_str(), sanitized.as_str());
    WorktreeStep::Continue(
        WorktreeState::CheckingRepo(
            WorktreePlan {
                repo_path: repo_path.to_owned(),
                workspace: workspace.to_owned(),
                repository: repository.to_owned(),
                branch: trimmed.to_owned(),
                sanitized,
                parent,
                target,
            },
        ),
    )
}

/// The action the flow asks for in a state.
pub fn worktree_action(state: &WorktreeState) -> (a: WorktreeAction)
    ensures
        worktree_action_spec(*state, a),
{
    match state {
        WorktreeState::CheckingRepo(p) => WorktreeAction::ProbeGitDir(
            join(p.repo_path.as_str(), ".git"),
        ),
        WorktreeState::CreatingParent(p) => WorktreeAction::CreateParentDir(p.parent.clone()),
        WorktreeState::AddingWorktree(p) => WorktreeAction::RunWorktreeAdd {
            repo_path: p.repo_path.clone(),
            branch: p.branch.clone(),
            target: p.target.clone(),
        },
    }
}

/// Feeds the outcome of the performed action back into the flow.
pub fn worktree_step(state: WorktreeState, event: WorktreeEvent) -> (r: WorktreeStep)
    requires
        worktree_event_fits(state, event),
    ensures
        worktree_step_spec(state, event, r),
{
    match state {
        WorktreeState::CheckingRepo(p) => match event {
            WorktreeEvent::GitDirProbed(found) => {
                if found {
                    WorktreeStep::Continue(WorktreeState::CreatingParent(p))
                } else {
                    WorktreeStep::Fail(WorktreeError::NotAGitRepository(p.repo_path))
                }
            },
            _ => {
                proof {
                    assert(false);
                }
                WorktreeStep::Fail(WorktreeError::EmptyBranch)
            },
        },
        WorktreeState::CreatingParent(p) => match event {
            WorktreeEvent::ParentCreated(ok) => {
                if ok {
                    WorktreeStep::Continue(WorktreeState::AddingWorktree(p))
                } else {
                    WorktreeStep::Fail(WorktreeError::WorktreeDirCreationFailed)
                }
            },
            _ => {
                proof {
                    assert(false);
                }
                WorktreeStep::Fail(WorktreeError::EmptyBranch)
            },
        },
        WorktreeState::AddingWorktree(p) => match event {
            WorktreeEvent::WorktreeAddFinished { success, stderr } => {
                if success {
                    WorktreeStep::Done(
                        CreateWorktreeResponse {
                            workspace: p.workspace,
                            repository: p.repository,
                            branch: p.branch,
                            path: p.target,
                        },
                    )
                } else {
                    WorktreeStep::Fail(WorktreeError::WorktreeCreationFailed(stderr))
                }
            },
            _ => {
                proof {
                    assert(false);
                }
                WorktreeStep::Fail(WorktreeError::EmptyBranch)
            },
        },
    }
}

/// A repository without version-control metadata is rejected before the
/// external command runs: when the probe reports no metadata directory the
/// flow fails with `NotAGitRepository`, and the only action it has asked
/// for until then — the probe itself — writes nothing.
pub proof fn lemma_non_git_repo_rejected(p: WorktreePlan, a: WorktreeAction, r: WorktreeStep)
    requires
        worktree_action_spec(WorktreeState::CheckingRepo(p), a),
        worktree_step_spec(
            WorktreeState::CheckingRepo(p),
            WorktreeEvent::GitDirProbed(false),
            r,
        ),
    ensures
        !worktree_action_mutates(a),
        r matches WorktreeStep::Fail(WorktreeError::NotAGitRepository(path)) && path@
            == p.repo_path@,
{
}

} // verus!
