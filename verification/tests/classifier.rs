use ketra_core::classify::{classify_text, classify_outcome, combined_output, ErrorKind};
use ketra_core::model::CommandOutcome;

fn outcome(ok: bool, stdout: &str, stderr: &str) -> CommandOutcome {
    CommandOutcome {
        exit_succeeded: ok,
        stdout: stdout.to_string(),
        stderr: stderr.to_string(),
    }
}

#[test]
fn classify_not_a_repository_patterns() {
    assert_eq!(
        classify_text("fatal: not a git repository (or any of the parent directories)"),
        ErrorKind::NotARepository
    );
    assert_eq!(
        classify_text("sh: cd: No such file or directory"),
        ErrorKind::NotARepository
    );
}

#[test]
fn classify_no_upstream_patterns() {
    assert_eq!(
        classify_text("There is no tracking information for the current branch."),
        ErrorKind::NoUpstreamBranch
    );
    assert_eq!(
        classify_text("fatal: The current branch main has no upstream branch."),
        ErrorKind::NoUpstreamBranch
    );
}

#[test]
fn classify_permission_patterns() {
    assert_eq!(classify_text("remote: Permission denied"), ErrorKind::PermissionDenied);
    assert_eq!(
        classify_text("The requested URL returned error: 403"),
        ErrorKind::PermissionDenied
    );
    assert_eq!(
        classify_text("remote: error: denied to push to this repo"),
        ErrorKind::PermissionDenied
    );
}

#[test]
fn classify_benign_and_stash_patterns() {
    assert_eq!(classify_text("No local changes to save"), ErrorKind::NoLocalChanges);
    assert_eq!(classify_text("No stash entries found."), ErrorKind::NoStashEntries);
}

#[test]
fn classify_unknown_when_nothing_matches() {
    assert_eq!(classify_text("error: something else entirely"), ErrorKind::Unknown);
    assert_eq!(classify_text(""), ErrorKind::Unknown);
}

#[test]
fn classify_priority_respected() {
    // Permission denied beside an unrelated generic failure still
    // classifies as PermissionDenied.
    assert_eq!(
        classify_text("error: failed to push some refs\nremote: Permission denied"),
        ErrorKind::PermissionDenied
    );
    // A higher-priority family wins over a lower one.
    assert_eq!(
        classify_text("not a git repository and also Permission denied"),
        ErrorKind::NotARepository
    );
    assert_eq!(
        classify_text("no upstream branch, and Permission denied too"),
        ErrorKind::NoUpstreamBranch
    );
}

#[test]
fn classify_deterministic_over_repeated_calls() {
    let text = "remote: Permission denied\nsome noise";
    let first = classify_text(text);
    let second = classify_text(text);
    let third = classify_text(text);
    assert_eq!(first, second);
    assert_eq!(second, third);
    assert_eq!(first, ErrorKind::PermissionDenied);
}

#[test]
fn classify_outcome_concatenates_stdout_and_stderr() {
    // The pattern is split across the two streams: only the
    // concatenation contains it.
    let o = outcome(false, "denied ", "to push");
    assert_eq!(combined_output(&o), "denied to push");
    assert_eq!(classify_outcome(&o), ErrorKind::PermissionDenied);
}
