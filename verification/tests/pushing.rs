use ketra_core::command::GitOp;
use ketra_core::model::CommandOutcome;
use ketra_core::push::{push_start, push_step, PushAction, PushEvent, PushPhase};

fn command_ok(stdout: &str) -> PushEvent {
    PushEvent::Command {
        outcome: Ok(CommandOutcome {
            exit_succeeded: true,
            stdout: stdout.to_string(),
            stderr: String::new(),
        }),
    }
}

fn command_failed(stdout: &str, stderr: &str) -> PushEvent {
    PushEvent::Command {
        outcome: Ok(CommandOutcome {
            exit_succeeded: false,
            stdout: stdout.to_string(),
            stderr: stderr.to_string(),
        }),
    }
}

fn run_op(action: &PushAction) -> GitOp {
    match action {
        PushAction::Run { op } => op.clone(),
        other => panic!("expected a command action, got {:?}", other),
    }
}

#[test]
fn push_without_remote_creates_repo_and_sets_upstream() {
    let (phase, action) = push_start();
    assert!(matches!(action, PushAction::Run { op: GitOp::RemoteGetUrl }));

    // No remote configured: the check fails.
    let (phase, action) = push_step(&phase, &command_failed("", "error: No such remote"), "widget", "msg");
    match &action {
        PushAction::CreateRepo { name } => assert_eq!(name, "widget"),
        other => panic!("expected repository creation, got {:?}", other),
    }

    // The hosting service answers with a clone URL.
    let created = PushEvent::RepoCreated {
        result: Ok("https://example.com/widget.git".to_string()),
    };
    let (phase, action) = push_step(&phase, &created, "widget", "msg");
    match run_op(&action) {
        GitOp::RemoteAdd { url } => assert_eq!(url, "https://example.com/widget.git"),
        other => panic!("expected remote registration, got {:?}", other),
    }

    let (phase, action) = push_step(&phase, &command_ok(""), "widget", "msg");
    assert!(matches!(run_op(&action), GitOp::BranchRenameMain));

    let (phase, action) = push_step(&phase, &command_ok(""), "widget", "msg");
    assert!(matches!(run_op(&action), GitOp::AddAll));

    let (phase, action) = push_step(&phase, &command_ok(""), "widget", "msg");
    assert!(matches!(run_op(&action), GitOp::StatusPorcelain));

    // Dirty tree: a commit comes before the push.
    let (phase, action) = push_step(&phase, &command_ok(" M src/main.rs\n"), "widget", "the message");
    match run_op(&action) {
        GitOp::Commit { message } => assert_eq!(message, "the message"),
        other => panic!("expected a commit, got {:?}", other),
    }

    // First push to the fresh remote tracks upstream.
    let (phase, action) = push_step(&phase, &command_ok(""), "widget", "msg");
    assert!(matches!(run_op(&action), GitOp::Push { set_upstream: true }));

    let (_, action) = push_step(&phase, &command_ok("Everything pushed\n"), "widget", "msg");
    match action {
        PushAction::Finish { result } => assert_eq!(result, Ok("Everything pushed\n".to_string())),
        other => panic!("expected the protocol to finish, got {:?}", other),
    }
}

#[test]
fn push_with_remote_skips_creation_and_upstream_flag() {
    let (phase, _) = push_start();
    // The remote check succeeds: no repository creation anywhere.
    let (phase, action) = push_step(&phase, &command_ok("https://example.com/w.git\n"), "w", "m");
    assert!(matches!(run_op(&action), GitOp::AddAll));
    assert!(matches!(phase, PushPhase::Staging { has_remote: true }));

    let (phase, action) = push_step(&phase, &command_ok(""), "w", "m");
    assert!(matches!(run_op(&action), GitOp::StatusPorcelain));

    // Clean tree: no commit, straight to a plain push.
    let (phase, action) = push_step(&phase, &command_ok("   \n"), "w", "m");
    assert!(matches!(run_op(&action), GitOp::Push { set_upstream: false }));

    let (_, action) = push_step(&phase, &command_ok("done\n"), "w", "m");
    assert!(matches!(action, PushAction::Finish { result: Ok(_) }));
}

#[test]
fn second_push_does_not_repeat_repo_creation() {
    // After a first push registered the remote, the next run's remote
    // check succeeds, so the walk never reaches repository creation.
    let mut saw_create = false;
    let (mut phase, _) = push_start();
    let events = [
        command_ok("https://example.com/w.git\n"),
        command_ok(""),
        command_ok(" M a\n"),
        command_ok(""),
        command_ok("ok\n"),
    ];
    for event in events {
        let (next, action) = push_step(&phase, &event, "w", "m");
        if matches!(action, PushAction::CreateRepo { .. }) {
            saw_create = true;
        }
        if let PushAction::Run { op: GitOp::Push { set_upstream } } = &action {
            assert!(!set_upstream);
        }
        phase = next;
        if matches!(phase, PushPhase::Finished) {
            break;
        }
    }
    assert!(!saw_create);
}

#[test]
fn failed_repo_creation_aborts_with_the_collaborator_error() {
    let (phase, _) = push_start();
    let (phase, _) = push_step(&phase, &command_failed("", ""), "w", "m");
    let refused = PushEvent::RepoCreated {
        result: Err("GitHub API error: quota".to_string()),
    };
    let (phase, action) = push_step(&phase, &refused, "w", "m");
    assert!(matches!(phase, PushPhase::Finished));
    match action {
        PushAction::Finish { result } => {
            assert_eq!(result, Err("GitHub API error: quota".to_string()))
        },
        other => panic!("expected the protocol to finish, got {:?}", other),
    }
}

#[test]
fn denied_push_reports_permission_error() {
    let phase = PushPhase::Pushing { has_remote: true };
    let (_, action) = push_step(
        &phase,
        &command_failed("", "remote: Permission denied\n"),
        "w",
        "m",
    );
    match action {
        PushAction::Finish { result } => assert_eq!(
            result,
            Err("Permission denied. You don't have push access to this repository. Fork it or create your own repo to push changes.".to_string())
        ),
        other => panic!("expected the protocol to finish, got {:?}", other),
    }
}

#[test]
fn failed_push_carries_combined_output() {
    let phase = PushPhase::Pushing { has_remote: true };
    let (_, action) = push_step(&phase, &command_failed("out", "err"), "w", "m");
    match action {
        PushAction::Finish { result } => {
            assert_eq!(result, Err("Push failed: outerr".to_string()))
        },
        other => panic!("expected the protocol to finish, got {:?}", other),
    }
}

#[test]
fn spawn_failures_surface_their_step() {
    let phase = PushPhase::Staging { has_remote: true };
    let spawn_failed = PushEvent::Command {
        outcome: Err("program not found".to_string()),
    };
    let (_, action) = push_step(&phase, &spawn_failed, "w", "m");
    match action {
        PushAction::Finish { result } => {
            assert_eq!(result, Err("Failed to add files: program not found".to_string()))
        },
        other => panic!("expected the protocol to finish, got {:?}", other),
    }
}
