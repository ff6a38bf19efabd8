//! The error classifier: maps raw process output to a small closed set
//! of semantic error kinds, most-specific pattern family first.

use vstd::prelude::*;
use crate::model::CommandOutcome;
use crate::text::{contains_seq, contains_str};

verus! {

/// Semantic outcome classes for failed (or benignly succeeding) git
/// commands, plus the kinds produced outside classification: a root
/// that cannot be resolved, an unreachable bridge, and a process that
/// could not even be spawned.  The raw message of an `Unknown` outcome
/// travels beside the kind, in the interpreting function's result.
#[derive(Clone, Copy, Debug, PartialEq, Eq, Structural)]
pub enum ErrorKind {
    ConfigurationError,
    EnvironmentUnavailable,
    NotARepository,
    NoUpstreamBranch,
    PermissionDenied,
    /// Success-shaped: nothing to stash is not an error.
    NoLocalChanges,
    NoStashEntries,
    CommandExecutionFailure,
    Unknown,
}

/// The classification table, evaluated in priority order over the
/// concatenated stdout and stderr of a command: the first matching
/// pattern family wins, and no pattern at all means `Unknown`.
pub open spec fn classify_spec(text: Seq<char>) -> ErrorKind {
    if contains_seq(text, "No such file or directory"@) || contains_seq(
        text,
        "not a git repository"@,
    ) {
        ErrorKind::NotARepository
    } else if contains_seq(text, "no tracking information"@) || contains_seq(
        text,
        "no upstream branch"@,
    ) {
        ErrorKind::NoUpstreamBranch
    } else if contains_seq(text, "Permission denied"@) || contains_seq(text, "403"@)
        || contains_seq(text, "denied to push"@) {
        ErrorKind::PermissionDenied
    } else if contains_seq(text, "No local changes to save"@) {
        ErrorKind::NoLocalChanges
    } else if contains_seq(text, "No stash entries found"@) {
        ErrorKind::NoStashEntries
    } else {
        ErrorKind::Unknown
    }
}

/// Classifies a combined output text.  Total: some kind comes back for
/// every text, and the same text always yields the same kind.
pub fn classify_text(text: &str) -> (r: ErrorKind)
    ensures
        r == classify_spec(text@),
{
    if contains_str(text, "No such file or directory") || contains_str(
        text,
        "not a git repository",
    ) {
        ErrorKind::NotARepository
    } else if contains_str(text, "no tracking information") || contains_str(
        text,
        "no upstream branch",
    ) {
        ErrorKind::NoUpstreamBranch
    } else if contains_str(text, "Permission denied") || contains_str(text, "403")
        || contains_str(text, "denied to push") {
        ErrorKind::PermissionDenied
    } else if contains_str(text, "No local changes to save") {
        ErrorKind::NoLocalChanges
    } else if contains_str(text, "No stash entries found") {
        ErrorKind::NoStashEntries
    } else {
        ErrorKind::Unknown
    }
}

/// The stdout and stderr of an outcome, concatenated in that order:
/// the text the classification table is evaluated against.
pub open spec fn combined_spec(outcome: CommandOutcome) -> Seq<char> {
    outcome.stdout@ + outcome.stderr@
}

/// Concatenates an outcome's stdout and stderr.
pub fn combined_output(outcome: &CommandOutcome) -> (r: String)
    ensures
        r@ == combined_spec(*outcome),
{
    outcome.stdout.clone().concat(outcome.stderr.as_str())
}

/// Classifies a command outcome by its combined output.
pub fn classify_outcome(outcome: &CommandOutcome) -> (r: ErrorKind)
    ensures
        r == classify_spec(combined_spec(*outcome)),
{
    let combined = combined_output(outcome);
    classify_text(combined.as_str())
}

/// Pattern priority is respected: a text that matches the
/// permission-denied family classifies as `PermissionDenied` whenever
/// no higher-priority family matches, however many other patterns
/// occur in it.
pub proof fn lemma_classify_priority(text: Seq<char>)
    requires
        contains_seq(text, "Permission denied"@) || contains_seq(text, "403"@) || contains_seq(
            text,
            "denied to push"@,
        ),
        !contains_seq(text, "No such file or directory"@),
        !contains_seq(text, "not a git repository"@),
        !contains_seq(text, "no tracking information"@),
        !contains_seq(text, "no upstream branch"@),
    ensures
        classify_spec(text) == ErrorKind::PermissionDenied,
{
}

} // verus!
