use ketra_core::model::CommandOutcome;
use ketra_core::ops::{
    interpret_auth_check, interpret_bridged_delete, interpret_clone, interpret_create_branch,
    interpret_diff, interpret_pull, interpret_repo_deletion, interpret_stash,
    interpret_stash_pop, interpret_switch, interpret_token_lookup, missing_project_message,
    native_delete_error_message,
};

fn outcome(ok: bool, stdout: &str, stderr: &str) -> CommandOutcome {
    CommandOutcome {
        exit_succeeded: ok,
        stdout: stdout.to_string(),
        stderr: stderr.to_string(),
    }
}

#[test]
fn pull_success_returns_stdout() {
    let o = outcome(true, "Already up to date.\n", "");
    assert_eq!(interpret_pull(&o), Ok("Already up to date.\n".to_string()));
}

#[test]
fn pull_failure_not_a_repository() {
    let o = outcome(false, "", "fatal: not a git repository");
    assert_eq!(interpret_pull(&o), Err("Not a git repository".to_string()));
}

#[test]
fn pull_failure_no_upstream() {
    let o = outcome(false, "", "There is no tracking information for the current branch.");
    assert_eq!(
        interpret_pull(&o),
        Err("No remote tracking branch. This project may not have been pushed yet.".to_string())
    );
}

#[test]
fn pull_failure_generic_carries_combined_output() {
    let o = outcome(false, "out", "err");
    assert_eq!(interpret_pull(&o), Err("Pull failed: outerr".to_string()));
}

#[test]
fn clone_returns_repo_name_on_success() {
    let o = outcome(true, "", "");
    assert_eq!(interpret_clone(&o, "widget"), Ok("widget".to_string()));
    let failed = outcome(false, "", "fatal: repository not found\n");
    assert_eq!(
        interpret_clone(&failed, "widget"),
        Err("Git clone failed: fatal: repository not found\n".to_string())
    );
}

#[test]
fn switch_and_create_branch_messages() {
    let ok = outcome(true, "", "");
    assert_eq!(
        interpret_switch(&ok, "dev"),
        Ok("Switched to branch 'dev'".to_string())
    );
    assert_eq!(
        interpret_create_branch(&ok, "feat"),
        Ok("Created and switched to branch 'feat'".to_string())
    );
    let failed = outcome(false, "", "pathspec error\n");
    assert_eq!(
        interpret_switch(&failed, "dev"),
        Err("Failed to switch branch: pathspec error\n".to_string())
    );
    assert_eq!(
        interpret_create_branch(&failed, "feat"),
        Err("Failed to create branch: pathspec error\n".to_string())
    );
}

#[test]
fn diff_returns_raw_text() {
    let o = outcome(true, "diff --git a b\n", "");
    assert_eq!(interpret_diff(&o), Ok("diff --git a b\n".to_string()));
    let failed = outcome(false, "", "");
    assert_eq!(interpret_diff(&failed), Err("Failed to get diff".to_string()));
}

#[test]
fn stash_on_clean_tree_is_success_not_error() {
    let o = outcome(true, "No local changes to save\n", "");
    assert_eq!(interpret_stash(&o), Ok("No changes to stash".to_string()));
}

#[test]
fn stash_with_changes_and_stash_failure() {
    let o = outcome(true, "Saved working directory and index state WIP\n", "");
    assert_eq!(interpret_stash(&o), Ok("Changes stashed successfully".to_string()));
    let failed = outcome(false, "", "");
    assert_eq!(interpret_stash(&failed), Err("Failed to stash changes".to_string()));
}

#[test]
fn stash_pop_messages() {
    let ok = outcome(true, "", "");
    assert_eq!(interpret_stash_pop(&ok), Ok("Stash applied successfully".to_string()));
    let empty = outcome(false, "", "No stash entries found.\n");
    assert_eq!(
        interpret_stash_pop(&empty),
        Err("No stashed changes to restore".to_string())
    );
    let failed = outcome(false, "", "merge conflict\n");
    assert_eq!(
        interpret_stash_pop(&failed),
        Err("Failed to apply stash: merge conflict\n".to_string())
    );
}

#[test]
fn token_lookup_prefers_ambient_value() {
    let helper = outcome(true, "SECRET-REDACTED\n", "");
    assert_eq!(
        interpret_token_lookup(Some("ambient-token"), Some(&helper)),
        Ok("ambient-token".to_string())
    );
}

#[test]
fn token_lookup_falls_back_to_helper_and_then_fails() {
    let helper = outcome(true, "  tok123\n", "");
    assert_eq!(interpret_token_lookup(None, Some(&helper)), Ok("tok123".to_string()));
    let empty = outcome(true, "   \n", "");
    let refusal =
        "GitHub token not found. Please run 'gh auth login' or set GITHUB_TOKEN environment variable.";
    assert_eq!(interpret_token_lookup(None, Some(&empty)), Err(refusal.to_string()));
    let failed = outcome(false, "tok", "");
    assert_eq!(interpret_token_lookup(None, Some(&failed)), Err(refusal.to_string()));
    assert_eq!(interpret_token_lookup(None, None), Err(refusal.to_string()));
}

#[test]
fn auth_check_cases() {
    assert_eq!(interpret_auth_check(None, None), Err("gh_not_installed".to_string()));
    let bad = outcome(false, "", "");
    assert_eq!(
        interpret_auth_check(Some(&bad), None),
        Err("not_authenticated".to_string())
    );
    let good = outcome(true, "", "");
    let user = outcome(true, "octocat\n", "");
    assert_eq!(
        interpret_auth_check(Some(&good), Some(&user)),
        Ok("octocat".to_string())
    );
    assert_eq!(interpret_auth_check(Some(&good), None), Ok("authenticated".to_string()));
}

#[test]
fn repo_deletion_absent_is_fine() {
    assert_eq!(interpret_repo_deletion(true, 204, ""), Ok(()));
    assert_eq!(interpret_repo_deletion(false, 404, "missing"), Ok(()));
    assert_eq!(
        interpret_repo_deletion(false, 500, "server broke"),
        Err("GitHub API error: server broke".to_string())
    );
}

#[test]
fn delete_messages() {
    assert_eq!(
        missing_project_message("C:\\u\\ketra\\x"),
        "Project folder does not exist: C:\\u\\ketra\\x"
    );
    let failed = outcome(false, "", "device busy\n");
    assert_eq!(
        interpret_bridged_delete(&failed),
        Err("Failed to delete WSL project: device busy\n".to_string())
    );
    assert_eq!(interpret_bridged_delete(&outcome(true, "", "")), Ok(()));
    assert_eq!(
        native_delete_error_message("p", true, "ignored"),
        "Cannot delete project - please close VSCode or any programs using this folder first"
    );
    assert_eq!(
        native_delete_error_message("C:\\p", false, "in use"),
        "Failed to delete project folder 'C:\\p': in use"
    );
}
