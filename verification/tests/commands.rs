use ketra_core::classify::ErrorKind;
use ketra_core::command::{
    bridged_dir_test_command, bridged_list_command, bridged_path_of_native, build_git_command,
    environment_of_path, project_path, resolve_root, GitOp,
};
use ketra_core::model::Environment;

#[test]
fn native_commands_run_git_directly() {
    let c = build_git_command(Environment::Native, "C:\\u\\ketra\\p", &GitOp::Pull);
    assert_eq!(c.program, "git");
    assert_eq!(c.args, vec!["-C", "C:\\u\\ketra\\p", "pull"]);
}

#[test]
fn bridged_commands_go_through_the_bridge() {
    let c = build_git_command(Environment::Bridged, "/home/u/ketra/p", &GitOp::Pull);
    assert_eq!(c.program, "wsl");
    assert_eq!(c.args, vec!["git", "-C", "/home/u/ketra/p", "pull"]);
}

#[test]
fn status_probe_command_lines() {
    let b = build_git_command(Environment::Native, "p", &GitOp::BranchShow);
    assert_eq!(b.args, vec!["-C", "p", "branch", "--show-current"]);
    let s = build_git_command(Environment::Native, "p", &GitOp::StatusPorcelain);
    assert_eq!(s.args, vec!["-C", "p", "status", "--porcelain"]);
    let r = build_git_command(Environment::Native, "p", &GitOp::RevListCounts);
    assert_eq!(
        r.args,
        vec!["-C", "p", "rev-list", "--left-right", "--count", "HEAD...@{u}"]
    );
}

#[test]
fn log_command_carries_the_limit() {
    let c = build_git_command(Environment::Native, "p", &GitOp::Log { limit: 3 });
    assert_eq!(
        c.args,
        vec!["-C", "p", "log", "-3", "--pretty=format:%H|%an|%ae|%at|%s"]
    );
    let c25 = build_git_command(Environment::Native, "p", &GitOp::Log { limit: 25 });
    assert_eq!(c25.args[3], "-25");
}

#[test]
fn mutation_command_lines() {
    let co = build_git_command(Environment::Native, "p", &GitOp::Checkout {
        branch: "dev".to_string(),
    });
    assert_eq!(co.args, vec!["-C", "p", "checkout", "dev"]);
    let nb = build_git_command(Environment::Native, "p", &GitOp::CheckoutNew {
        branch: "feat".to_string(),
    });
    assert_eq!(nb.args, vec!["-C", "p", "checkout", "-b", "feat"]);
    let cl = build_git_command(Environment::Native, "base", &GitOp::CloneRepo {
        url: "https://example.com/r.git".to_string(),
    });
    assert_eq!(cl.args, vec!["-C", "base", "clone", "https://example.com/r.git"]);
    let cm = build_git_command(Environment::Native, "p", &GitOp::Commit {
        message: "a message with 'quotes'".to_string(),
    });
    // The message is one argument of its own: no shell ever sees it.
    assert_eq!(cm.args, vec!["-C", "p", "commit", "-m", "a message with 'quotes'"]);
    let push = build_git_command(Environment::Native, "p", &GitOp::Push { set_upstream: true });
    assert_eq!(push.args, vec!["-C", "p", "push", "-u", "origin", "main"]);
    let push2 = build_git_command(Environment::Native, "p", &GitOp::Push { set_upstream: false });
    assert_eq!(push2.args, vec!["-C", "p", "push"]);
}

#[test]
fn bridge_utility_commands() {
    let t = bridged_dir_test_command("/home/u/ketra/p");
    assert_eq!(t.program, "wsl");
    assert_eq!(t.args, vec!["test", "-d", "/home/u/ketra/p"]);
    let l = bridged_list_command("/home/u/ketra");
    assert_eq!(l.program, "wsl");
    assert_eq!(l.args, vec!["ls", "-1", "/home/u/ketra"]);
}

#[test]
fn environment_inferred_from_path_shape() {
    assert_eq!(environment_of_path("/home/u/ketra/p"), Environment::Bridged);
    assert_eq!(environment_of_path("/mnt/c/things"), Environment::Bridged);
    assert_eq!(environment_of_path("C:\\Users\\u\\ketra\\p"), Environment::Native);
    assert_eq!(environment_of_path("plain"), Environment::Native);
}

#[test]
fn roots_resolve_or_fail_fast() {
    assert_eq!(
        resolve_root(Environment::Native, Some("C:\\Users\\me")),
        Ok("C:\\Users\\me\\ketra".to_string())
    );
    assert_eq!(
        resolve_root(Environment::Native, None),
        Err(ErrorKind::ConfigurationError)
    );
    assert_eq!(
        resolve_root(Environment::Bridged, Some("bob\n")),
        Ok("/home/bob/ketra".to_string())
    );
    assert_eq!(
        resolve_root(Environment::Bridged, Some("   \n")),
        Err(ErrorKind::EnvironmentUnavailable)
    );
    assert_eq!(
        resolve_root(Environment::Bridged, None),
        Err(ErrorKind::EnvironmentUnavailable)
    );
}

#[test]
fn project_paths_join_with_the_environment_separator() {
    assert_eq!(
        project_path("C:\\Users\\me\\ketra", "proj", Environment::Native),
        "C:\\Users\\me\\ketra\\proj"
    );
    assert_eq!(
        project_path("/home/bob/ketra", "proj", Environment::Bridged),
        "/home/bob/ketra/proj"
    );
}

#[test]
fn native_paths_rewritten_for_the_bridge() {
    assert_eq!(
        bridged_path_of_native("C:\\Users\\me\\stuff"),
        "/mnt/c/Users/me/stuff"
    );
    assert_eq!(bridged_path_of_native("relative\\dir"), "relative/dir");
}
