//! The compound push protocol, as a state machine from plain values to
//! plain values.  The engine decides; the surrounding program performs
//! each action out of process (or against the hosting service) and
//! hands the outcome back as the next event.
//!
//! A project with no configured remote first gets a hosting-service
//! repository, registers its clone URL as the remote, and renames the
//! current branch to the canonical default name; only then is
//! everything staged, conditionally committed, and pushed — with
//! upstream tracking set on that first push.  A project whose remote
//! already exists skips creation and pushes without the upstream flag.

use vstd::prelude::*;
use crate::classify::{classify_spec, classify_outcome, combined_spec, combined_output, ErrorKind};
use crate::command::GitOp;
use crate::model::CommandOutcome;
use crate::text::{trim_spec, trim_str};

verus! {

/// Where the protocol stands.  Phases after the remote check carry
/// what that check found, since it decides the final push's shape.
#[derive(Clone, Debug)]
pub enum PushPhase {
    /// Asking whether an origin remote is configured.
    CheckingRemote,
    /// Asking the hosting service for a fresh repository.
    CreatingRepo,
    /// Registering the fresh clone URL as the remote.
    AddingRemote,
    /// Renaming the current branch to the canonical default name.
    RenamingBranch,
    /// Staging every change.
    Staging { has_remote: bool },
    /// Asking whether the working tree is dirty.
    CheckingTree { has_remote: bool },
    /// Committing the staged changes.
    Committing { has_remote: bool },
    /// The final push.
    Pushing { has_remote: bool },
    /// Nothing further to do.
    Finished,
}

/// What the surrounding program reports back after an action.
#[derive(Debug)]
pub enum PushEvent {
    /// A command finished with this outcome, or could not even be
    /// spawned (the error text).
    Command { outcome: Result<CommandOutcome, String> },
    /// The hosting service answered repository creation: a clone URL,
    /// or the collaborator's error.
    RepoCreated { result: Result<String, String> },
}

/// What the engine asks for next.
#[derive(Debug)]
pub enum PushAction {
    /// Run this git operation at the project's path.
    Run { op: GitOp },
    /// Ask the hosting service for a repository of this name.
    CreateRepo { name: String },
    /// The protocol is over, with this result for the caller.
    Finish { result: Result<String, String> },
}

/// The action is a hosting-service repository creation.
pub open spec fn is_create_repo(a: PushAction) -> bool {
    match a {
        PushAction::CreateRepo { .. } => true,
        _ => false,
    }
}

/// The action is the final push, with or without upstream tracking.
pub open spec fn is_push_action(a: PushAction) -> bool {
    match a {
        PushAction::Run { op } => match op {
            GitOp::Push { .. } => true,
            _ => false,
        },
        _ => false,
    }
}

/// The action pushes with upstream tracking set.
pub open spec fn is_upstream_push(a: PushAction) -> bool {
    match a {
        PushAction::Run { op } => match op {
            GitOp::Push { set_upstream } => set_upstream,
            _ => false,
        },
        _ => false,
    }
}

/// What the remote check told the protocol in this phase, where that
/// is already settled.
pub open spec fn phase_has_remote(phase: PushPhase) -> Option<bool> {
    match phase {
        PushPhase::CheckingRemote => None,
        PushPhase::CreatingRepo => Some(false),
        PushPhase::AddingRemote => Some(false),
        PushPhase::RenamingBranch => Some(false),
        PushPhase::Staging { has_remote } => Some(has_remote),
        PushPhase::CheckingTree { has_remote } => Some(has_remote),
        PushPhase::Committing { has_remote } => Some(has_remote),
        PushPhase::Pushing { has_remote } => Some(has_remote),
        PushPhase::Finished => None,
    }
}

/// The whole protocol table: what one step from `phase` on `event`
/// yields, for a project of this name and a commit of this message.
pub open spec fn push_step_rel(
    phase: PushPhase,
    event: PushEvent,
    name: Seq<char>,
    message: Seq<char>,
    r: (PushPhase, PushAction),
) -> bool {
    match (phase, event) {
        (PushPhase::CheckingRemote, PushEvent::Command { outcome }) => {
            let has = outcome matches Ok(o) && o.exit_succeeded;
            if has {
                r == (
                    PushPhase::Staging { has_remote: true },
                    PushAction::Run { op: GitOp::AddAll },
                )
            } else {
                &&& r.0 is CreatingRepo
                &&& r.1 matches PushAction::CreateRepo { name: n } && n@ == name
            }
        },
        (PushPhase::CreatingRepo, PushEvent::RepoCreated { result }) => match result {
            Ok(url) => {
                &&& r.0 is AddingRemote
                &&& r.1 matches PushAction::Run { op } && op matches GitOp::RemoteAdd { url: u }
                    && u@ == url@
            },
            Err(e) => {
                &&& r.0 is Finished
                &&& r.1 matches PushAction::Finish { result: res } && res matches Err(m) && m@
                    == e@
            },
        },
        (PushPhase::AddingRemote, PushEvent::Command { outcome }) => match outcome {
            Ok(_) => r == (PushPhase::RenamingBranch, PushAction::Run { op: GitOp::BranchRenameMain }),
            Err(e) => {
                &&& r.0 is Finished
                &&& r.1 matches PushAction::Finish { result: res } && res matches Err(m) && m@
                    == "Failed to add remote: "@ + e@
            },
        },
        (PushPhase::RenamingBranch, PushEvent::Command { outcome: _ }) => r == (
            PushPhase::Staging { has_remote: false },
            PushAction::Run { op: GitOp::AddAll },
        ),
        (PushPhase::Staging { has_remote }, PushEvent::Command { outcome }) => match outcome {
            Ok(_) => r == (
                PushPhase::CheckingTree { has_remote },
                PushAction::Run { op: GitOp::StatusPorcelain },
            ),
            Err(e) => {
                &&& r.0 is Finished
                &&& r.1 matches PushAction::Finish { result: res } && res matches Err(m) && m@
                    == "Failed to add files: "@ + e@
            },
        },
        (PushPhase::CheckingTree { has_remote }, PushEvent::Command { outcome }) => {
            let dirty = outcome matches Ok(o) && trim_spec(o.stdout@).len() > 0;
            if dirty {
                &&& r.0 == PushPhase::Committing { has_remote }
                &&& r.1 matches PushAction::Run { op } && op matches GitOp::Commit { message: m }
                    && m@ == message
            } else {
                r == (
                    PushPhase::Pushing { has_remote },
                    PushAction::Run { op: GitOp::Push { set_upstream: !has_remote } },
                )
            }
        },
        (PushPhase::Committing { has_remote }, PushEvent::Command { outcome }) => match outcome {
            Ok(_) => r == (
                PushPhase::Pushing { has_remote },
                PushAction::Run { op: GitOp::Push { set_upstream: !has_remote } },
            ),
            Err(e) => {
                &&& r.0 is Finished
                &&& r.1 matches PushAction::Finish { result: res } && res matches Err(m) && m@
                    == "Failed to commit: "@ + e@
            },
        },
        (PushPhase::Pushing { has_remote: _ }, PushEvent::Command { outcome }) => match outcome {
            Ok(o) => {
                &&& r.0 is Finished
                &&& r.1 matches PushAction::Finish { result: res } && (if o.exit_succeeded {
                    res matches Ok(m) && m@ == o.stdout@
                } else if classify_spec(combined_spec(o)) == ErrorKind::PermissionDenied {
                    res matches Err(m) && m@
                        == "Permission denied. You don't have push access to this repository. Fork it or create your own repo to push changes."@
                } else {
                    res matches Err(m) && m@ == "Push failed: "@ + combined_spec(o)
                })
            },
            Err(e) => {
                &&& r.0 is Finished
                &&& r.1 matches PushAction::Finish { result: res } && res matches Err(m) && m@
                    == "Failed to execute push: "@ + e@
            },
        },
        _ => {
            &&& r.0 is Finished
            &&& r.1 matches PushAction::Finish { result: res } && res matches Err(m) && m@
                == "unexpected push event"@
        },
    }
}

/// The protocol's first move: find out whether a remote is configured.
pub fn push_start() -> (r: (PushPhase, PushAction))
    ensures
        r == (PushPhase::CheckingRemote, PushAction::Run { op: GitOp::RemoteGetUrl }),
{
    (PushPhase::CheckingRemote, PushAction::Run { op: GitOp::RemoteGetUrl })
}

/// One step of the push protocol.
pub fn push_step(phase: &PushPhase, event: &PushEvent, name: &str, message: &str) -> (r: (
    PushPhase,
    PushAction,
))
    ensures
        push_step_rel(*phase, *event, name@, message@, r),
{
    match (phase, event) {
        (PushPhase::CheckingRemote, PushEvent::Command { outcome }) => {
            let has = match outcome {
                Ok(o) => o.exit_succeeded,
                Err(_) => false,
            };
            if has {
                (PushPhase::Staging { has_remote: true }, PushAction::Run { op: GitOp::AddAll })
            } else {
                (PushPhase::CreatingRepo, PushAction::CreateRepo { name: name.to_owned() })
            }
        },
        (PushPhase::CreatingRepo, PushEvent::RepoCreated { result }) => match result {
            Ok(url) => (
                PushPhase::AddingRemote,
                PushAction::Run { op: GitOp::RemoteAdd { url: url.clone() } },
            ),
            Err(e) => (
                PushPhase::Finished,
                PushAction::Finish { result: Err(e.clone()) },
            ),
        },
        (PushPhase::AddingRemote, PushEvent::Command { outcome }) => match outcome {
            Ok(_) => (
                PushPhase::RenamingBranch,
                PushAction::Run { op: GitOp::BranchRenameMain },
            ),
            Err(e) => (
                PushPhase::Finished,
                PushAction::Finish {
                    result: Err(String::from_str("Failed to add remote: ").concat(e.as_str())),
                },
            ),
        },
        (PushPhase::RenamingBranch, PushEvent::Command { outcome: _ }) => (
            PushPhase::Staging { has_remote: false },
            PushAction::Run { op: GitOp::AddAll },
        ),
        (PushPhase::Staging { has_remote }, PushEvent::Command { outcome }) => match outcome {
            Ok(_) => (
                PushPhase::CheckingTree { has_remote: *has_remote },
                PushAction::Run { op: GitOp::StatusPorcelain },
            ),
            Err(e) => (
                PushPhase::Finished,
                PushAction::Finish {
                    result: Err(String::from_str("Failed to add files: ").concat(e.as_str())),
                },
            ),
        },
        (PushPhase::CheckingTree { has_remote }, PushEvent::Command { outcome }) => {
            let dirty = match outcome {
                Ok(o) => !trim_str(o.stdout.as_str()).as_str().is_empty(),
                Err(_) => false,
            };
            if dirty {
                (
                    PushPhase::Committing { has_remote: *has_remote },
                    PushAction::Run { op: GitOp::Commit { message: message.to_owned() } },
                )
            } else {
                (
                    PushPhase::Pushing { has_remote: *has_remote },
                    PushAction::Run { op: GitOp::Push { set_upstream: !*has_remote } },
                )
            }
        },
        (PushPhase::Committing { has_remote }, PushEvent::Command { outcome }) => match outcome {
            Ok(_) => (
                PushPhase::Pushing { has_remote: *has_remote },
                PushAction::Run { op: GitOp::Push { set_upstream: !*has_remote } },
            ),
            Err(e) => (
                PushPhase::Finished,
                PushAction::Finish {
                    result: Err(String::from_str("Failed to commit: ").concat(e.as_str())),
                },
            ),
        },
        (PushPhase::Pushing { has_remote: _ }, PushEvent::Command { outcome }) => match outcome {
            Ok(o) => {
                if o.exit_succeeded {
                    (
                        PushPhase::Finished,
                        PushAction::Finish { result: Ok(o.stdout.clone()) },
                    )
                } else {
                    let kind = classify_outcome(o);
                    if kind == ErrorKind::PermissionDenied {
                        (
                            PushPhase::Finished,
                            PushAction::Finish {
                                result: Err(
                                    String::from_str(
                                        "Permission denied. You don't have push access to this repository. Fork it or create your own repo to push changes.",
                                    ),
                                ),
                            },
                        )
                    } else {
                        (
                            PushPhase::Finished,
                            PushAction::Finish {
                                result: Err(
                                    String::from_str("Push failed: ").concat(
                                        combined_output(o).as_str(),
                                    ),
                                ),
                            },
                        )
                    }
                }
            },
            Err(e) => (
                PushPhase::Finished,
                PushAction::Finish {
                    result: Err(String::from_str("Failed to execute push: ").concat(e.as_str())),
                },
            ),
        },
        _ => (
            PushPhase::Finished,
            PushAction::Finish { result: Err(String::from_str("unexpected push event")) },
        ),
    }
}

/// Once the remote check has found a remote, no later step ever asks
/// the hosting service for a repository, and every push it requests
/// goes without the upstream flag: a second push on a project whose
/// remote was registered by the first never repeats creation.
pub proof fn lemma_push_with_remote_skips_creation(
    phase: PushPhase,
    event: PushEvent,
    name: Seq<char>,
    message: Seq<char>,
    r: (PushPhase, PushAction),
)
    requires
        push_step_rel(phase, event, name, message, r),
        phase_has_remote(phase) == Some(true),
    ensures
        !is_create_repo(r.1),
        !is_upstream_push(r.1),
        phase_has_remote(r.0) == Some(true) || r.0 is Finished,
{
}

/// A failed remote check is answered with repository creation for the
/// project's own name, and every later push of that run carries the
/// upstream flag.
pub proof fn lemma_push_without_remote_registers(
    phase: PushPhase,
    event: PushEvent,
    name: Seq<char>,
    message: Seq<char>,
    r: (PushPhase, PushAction),
)
    requires
        push_step_rel(phase, event, name, message, r),
    ensures
        phase is CheckingRemote && !(event matches PushEvent::Command { outcome } && (
        outcome matches Ok(o) && o.exit_succeeded)) && event is Command ==> is_create_repo(r.1),
        phase_has_remote(phase) == Some(false) && is_push_action(r.1) ==> is_upstream_push(r.1),
{
}

} // verus!
