//! Cloning of a repository into the working tree.
//!
//! The flow parses the repository reference, computes the deterministic
//! target `<working_root>/<workspace>/<repository>`, and prescribes, one at
//! a time, the outside steps the caller must perform: probe the target,
//! create its parent, run the external clone, and — only after a failed
//! clone — remove the target again.  Every decision between those steps is
//! made here, on the step's reported outcome.  An existing target is never
//! overwritten, and a failed removal never masks the clone failure itself.

use vstd::prelude::*;
use vstd::string::*;

use crate::api::{CloneSessionResponse, StatusHint};
use crate::paths::{join, join_spec};
use crate::repo_url::{parse_repository_url, parse_spec, ParseError};

verus! {

/// Why a repository could not be cloned.
#[derive(Debug, PartialEq, Eq)]
pub enum CloneError {
    /// The repository reference could not be parsed.
    InvalidUrl(ParseError),
    /// The target directory (carried here) already exists; nothing is
    /// overwritten, ever.
    AlreadyExists(String),
    /// The target could not be inspected for a reason other than absence.
    InspectionFailed,
    /// The target's parent directory could not be created.
    WorkspaceDirCreationFailed,
    /// The external clone failed; its captured standard error is carried
    /// here.
    CloneFailed(String),
}

impl CloneError {
    /// The message of the error.
    pub open spec fn message_spec(&self) -> Seq<char> {
        match self {
            CloneError::InvalidUrl(e) => e.message_spec(),
            CloneError::AlreadyExists(target) => "repository already exists at "@ + target@,
            CloneError::InspectionFailed => "failed to inspect repository directory"@,
            CloneError::WorkspaceDirCreationFailed => "failed to prepare workspace directory"@,
            CloneError::CloneFailed(_) => "failed to clone repository"@,
        }
    }

    /// Renders the error for the caller.  The captured standard error of a
    /// failed clone is not part of the message; it is for the log.
    pub fn message(&self) -> (r: String)
        ensures
            r@ == self.message_spec(),
    {
        match self {
            CloneError::InvalidUrl(e) => e.message(),
            CloneError::AlreadyExists(target) => {
                let mut r = "repository already exists at ".to_owned();
                r.append(target.as_str());
                r
            },
            CloneError::InspectionFailed => "failed to inspect repository directory".to_owned(),
            CloneError::WorkspaceDirCreationFailed => "failed to prepare workspace directory"
                .to_owned(),
            CloneError::CloneFailed(_) => "failed to clone repository".to_owned(),
        }
    }

    /// Which kind of failure this is: a rejected input, a conflict with an
    /// existing repository, or an internal failure.
    pub fn status_hint(&self) -> (h: StatusHint)
        ensures
            h == match self {
                CloneError::InvalidUrl(_) => StatusHint::BadInput,
                CloneError::AlreadyExists(_) => StatusHint::Conflict,
                CloneError::InspectionFailed => StatusHint::Internal,
                CloneError::WorkspaceDirCreationFailed => StatusHint::Internal,
                CloneError::CloneFailed(_) => StatusHint::Internal,
            },
    {
        match self {
            CloneError::InvalidUrl(_) => StatusHint::BadInput,
            CloneError::AlreadyExists(_) => StatusHint::Conflict,
            CloneError::InspectionFailed => StatusHint::Internal,
            CloneError::WorkspaceDirCreationFailed => StatusHint::Internal,
            CloneError::CloneFailed(_) => StatusHint::Internal,
        }
    }
}

/// What the flow has computed up front and carries between steps.
#[derive(Debug, PartialEq, Eq)]
pub struct ClonePlan {
    /// The reference as the caller gave it, handed verbatim to the
    /// external clone.
    pub url: String,
    /// The workspace segment parsed out of the reference.
    pub workspace: String,
    /// The repository segment parsed out of the reference.
    pub repository: String,
    /// `<working_root>/<workspace>`.
    pub parent: String,
    /// `<parent>/<repository>`.
    pub target: String,
}

/// The plan holds exactly what the reference and the working root dictate.
pub open spec fn clone_plan_wf(p: ClonePlan, url: Seq<char>, working_root: Seq<char>) -> bool {
    &&& p.url@ == url
    &&& parse_spec(url) matches Ok(c) && p.workspace@ == c.workspace && p.repository@
        == c.repository && p.parent@ == join_spec(working_root, c.workspace) && p.target@
        == join_spec(p.parent@, c.repository)
}

/// Where the flow stands: which outside step it is waiting on.
#[derive(Debug, PartialEq, Eq)]
pub enum CloneState {
    /// Waiting for the existence probe of the target.
    ProbingTarget(ClonePlan),
    /// Waiting for the creation of the target's parent directory.
    CreatingParent(ClonePlan),
    /// Waiting for the external clone.
    RunningClone(ClonePlan),
    /// The clone failed (captured standard error carried here); waiting
    /// for the removal of the target.
    RollingBack(ClonePlan, String),
}

/// What the existence probe of the target reported.
#[derive(Debug, Clone, Copy, PartialEq, Eq, Structural)]
pub enum ProbeOutcome {
    /// The target exists.
    Found,
    /// The target does not exist.
    Missing,
    /// The probe itself failed, for a reason other than absence.
    Failed,
}

/// What the flow asks its caller to perform next.
#[derive(Debug, PartialEq, Eq)]
pub enum CloneAction {
    /// Check what is at the path; report the outcome with
    /// `CloneEvent::TargetProbed`.
    ProbeTarget(String),
    /// Create the directory at the path, missing parents included; report
    /// with `CloneEvent::ParentCreated`.
    CreateParentDir(String),
    /// Run the external `clone <url> <target>` command; report with
    /// `CloneEvent::CloneFinished`.
    RunClone { url: String, target: String },
    /// Remove the directory at the path and everything under it; report
    /// with `CloneEvent::TargetRemoved`.
    RemoveTarget(String),
}

/// The outcome of the performed action, reported back to the flow.
#[derive(Debug, PartialEq, Eq)]
pub enum CloneEvent {
    /// What the existence probe found.
    TargetProbed(ProbeOutcome),
    /// Whether the parent directory was created.
    ParentCreated(bool),
    /// Whether the external clone succeeded, with its captured standard
    /// error.
    CloneFinished { success: bool, stderr: String },
    /// Whether the target was removed.
    TargetRemoved(bool),
}

/// What the flow says after each step: go on, done, or failed.
#[derive(Debug, PartialEq, Eq)]
pub enum CloneStep {
    Continue(CloneState),
    Done(CloneSessionResponse),
    Fail(CloneError),
}

/// Whether the action writes to the filesystem or spawns a process; the
/// probe is read-only.
pub open spec fn clone_action_mutates(a: CloneAction) -> bool {
    !(a is ProbeTarget)
}

/// Which event answers the step a state waits on.
pub open spec fn clone_event_fits(state: CloneState, event: CloneEvent) -> bool {
    match (state, event) {
        (CloneState::ProbingTarget(_), CloneEvent::TargetProbed(_)) => true,
        (CloneState::CreatingParent(_), CloneEvent::ParentCreated(_)) => true,
        (CloneState::RunningClone(_), CloneEvent::CloneFinished { .. }) => true,
        (CloneState::RollingBack(_, _), CloneEvent::TargetRemoved(_)) => true,
        _ => false,
    }
}

/// The action each state asks for.
pub open spec fn clone_action_spec(state: CloneState, a: CloneAction) -> bool {
    match state {
        CloneState::ProbingTarget(p) => a matches CloneAction::ProbeTarget(t) && t@
            == p.target@,
        CloneState::CreatingParent(p) => a matches CloneAction::CreateParentDir(d) && d@
            == p.parent@,
        CloneState::RunningClone(p) => a matches CloneAction::RunClone { url, target } && url@
            == p.url@ && target@ == p.target@,
        CloneState::RollingBack(p, _) => a matches CloneAction::RemoveTarget(t) && t@
            == p.target@,
    }
}

/// What each step decides on each outcome.
pub open spec fn clone_step_spec(state: CloneState, event: CloneEvent, r: CloneStep) -> bool {
    match (state, event) {
        (CloneState::ProbingTarget(p), CloneEvent::TargetProbed(outcome)) => match outcome {
            ProbeOutcome::Found => r matches CloneStep::Fail(CloneError::AlreadyExists(t)) && t@
                == p.target@,
            ProbeOutcome::Failed => r == CloneStep::Fail(CloneError::InspectionFailed),
            ProbeOutcome::Missing => r == CloneStep::Continue(CloneState::CreatingParent(p)),
        },
        (CloneState::CreatingParent(p), CloneEvent::ParentCreated(ok)) => if ok {
            r == CloneStep::Continue(CloneState::RunningClone(p))
        } else {
            r == CloneStep::Fail(CloneError::WorkspaceDirCreationFailed)
        },
        (CloneState::RunningClone(p), CloneEvent::CloneFinished { success, stderr }) => if success {
            r matches CloneStep::Done(resp) && resp.workspace@ == p.workspace@
                && resp.repository@ == p.repository@ && resp.path@ == p.target@
        } else {
            r matches CloneStep::Continue(CloneState::RollingBack(q, e)) && q == p && e@
                == stderr@
        },
        (CloneState::RollingBack(_, stderr), CloneEvent::TargetRemoved(_)) => r matches
            CloneStep::Fail(CloneError::CloneFailed(e)) && e@ == stderr@,
        _ => false,
    }
}

/// Starts the clone flow.  A reference that does not parse is rejected at
/// once, with nothing asked of the caller; otherwise the flow computes the
/// plan and waits on the existence probe of the target.
pub fn clone_begin(repository_url: &str, working_root: &str) -> (r: CloneStep)
    ensures
        parse_spec(repository_url@) matches Err(e) ==> r == CloneStep::Fail(
            CloneError::InvalidUrl(e),
        ),
        parse_spec(repository_url@) is Ok ==> (r matches CloneStep::Continue(
            CloneState::ProbingTarget(p),
        ) && clone_plan_wf(p, repository_url@, working_root@)),
{
    let coords = match parse_repository_url(repository_url) {
        Ok(c) => c,
        Err(e) => {
            return CloneStep::Fail(CloneError::InvalidUrl(e));
        },
    };
    let parent = join(working_root, coords.workspace.as_str());
    let target = join(parent.as_str(), coords.repository.as_str());
    CloneStep::Continue(
        CloneState::ProbingTarget(
            ClonePlan {
                url: repository_url.to_owned(),
                workspace: coords.workspace,
                repository: coords.repository,
                parent,
                target,
            },
        ),
    )
}

/// The action the flow asks for in a state.
pub fn clone_action(state: &CloneState) -> (a: CloneAction)
    ensures
        clone_action_spec(*state, a),
{
    match state {
        CloneState::ProbingTarget(p) => CloneAction::ProbeTarget(p.target.clone()),
        CloneState::CreatingParent(p) => CloneAction::CreateParentDir(p.parent.clone()),
        CloneState::RunningClone(p) => CloneAction::RunClone {
            url: p.url.clone(),
            target: p.target.clone(),
        },
        CloneState::RollingBack(p, _) => CloneAction::RemoveTarget(p.target.clone()),
    }
}

/// Feeds the outcome of the performed action back into the flow.
pub fn clone_step(state: CloneState, event: CloneEvent) -> (r: CloneStep)
    requires
        clone_event_fits(state, event),
    ensures
        clone_step_spec(state, event, r),
{
    match state {
        CloneState::ProbingTarget(p) => match event {
            CloneEvent::TargetProbed(outcome) => match outcome {
                ProbeOutcome::Found => CloneStep::Fail(CloneError::AlreadyExists(p.target)),
                ProbeOutcome::Failed => CloneStep::Fail(CloneError::InspectionFailed),
                ProbeOutcome::Missing => CloneStep::Continue(CloneState::CreatingParent(p)),
            },
            _ => {
                proof {
                    assert(false);
                }
                CloneStep::Fail(CloneError::InspectionFailed)
            },
        },
        CloneState::CreatingParent(p) => match event {
            CloneEvent::ParentCreated(ok) => {
                if ok {
                    CloneStep::Continue(CloneState::RunningClone(p))
                } else {
                    CloneStep::Fail(CloneError::WorkspaceDirCreationFailed)
                }
            },
            _ => {
                proof {
                    assert(false);
                }
                CloneStep::Fail(CloneError::InspectionFailed)
            },
        },
        CloneState::RunningClone(p) => match event {
            CloneEvent::CloneFinished { success, stderr } => {
                if success {
                    CloneStep::Done(
                        CloneSessionResponse {
                            workspace: p.workspace,
                            repository: p.repository,
                            path: p.target,
                        },
                    )
                } else {
                    CloneStep::Continue(CloneState::RollingBack(p, stderr))
                }
            },
            _ => {
                proof {
                    assert(false);
                }
                CloneStep::Fail(CloneError::InspectionFailed)
            },
        },
        CloneState::RollingBack(_, stderr) => match event {
            CloneEvent::TargetRemoved(_) => CloneStep::Fail(CloneError::CloneFailed(stderr)),
            _ => {
                proof {
                    assert(false);
                }
                CloneStep::Fail(CloneError::InspectionFailed)
            },
        },
    }
}

/// A second clone of the same reference into an unchanged working root is
/// refused without touching the filesystem: when the probe finds the
/// target, the flow fails with `AlreadyExists`, and the only action it has
/// asked for until then — the probe itself — writes nothing.
pub proof fn lemma_clone_conflict_is_safe(p: ClonePlan, a: CloneAction, r: CloneStep)
    requires
        clone_action_spec(CloneState::ProbingTarget(p), a),
        clone_step_spec(
            CloneState::ProbingTarget(p),
            CloneEvent::TargetProbed(ProbeOutcome::Found),
            r,
        ),
    ensures
        !clone_action_mutates(a),
        r matches CloneStep::Fail(CloneError::AlreadyExists(t)) && t@ == p.target@,
{
}

/// A clone into a fresh target runs through: when the probe reports the
/// target missing, the parent is created and the external clone succeeds,
/// the flow reports the parsed coordinates and the target path.
pub proof fn lemma_clone_succeeds_into_fresh_target(
    p: ClonePlan,
    stderr: String,
    r1: CloneStep,
    s1: CloneState,
    r2: CloneStep,
    s2: CloneState,
    r3: CloneStep,
)
    requires
        clone_step_spec(
            CloneState::ProbingTarget(p),
            CloneEvent::TargetProbed(ProbeOutcome::Missing),
            r1,
        ),
        r1 == CloneStep::Continue(s1),
        clone_step_spec(s1, CloneEvent::ParentCreated(true), r2),
        r2 == CloneStep::Continue(s2),
        clone_step_spec(s2, CloneEvent::CloneFinished { success: true, stderr: stderr }, r3),
    ensures
        r3 matches CloneStep::Done(resp) && resp.workspace@ == p.workspace@ && resp.repository@
            == p.repository@ && resp.path@ == p.target@,
{
}

/// A failed external clone is always followed by removal of the target,
/// and whatever that removal reports, the flow returns the clone failure
/// with the captured standard error: a cleanup failure never masks it.
pub proof fn lemma_clone_failure_rolls_back(
    p: ClonePlan,
    stderr: String,
    r1: CloneStep,
    s: CloneState,
    a: CloneAction,
    removed: bool,
    r2: CloneStep,
)
    requires
        clone_step_spec(
            CloneState::RunningClone(p),
            CloneEvent::CloneFinished { success: false, stderr: stderr },
            r1,
        ),
        r1 == CloneStep::Continue(s),
        clone_action_spec(s, a),
        clone_step_spec(s, CloneEvent::TargetRemoved(removed), r2),
    ensures
        a matches CloneAction::RemoveTarget(t) && t@ == p.target@,
        r2 matches CloneStep::Fail(CloneError::CloneFailed(e)) && e@ == stderr@,
{
}

} // verus!
