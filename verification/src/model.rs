//! The data model: execution environments, project records, git status
//! snapshots, raw command outcomes, and commit records.

use vstd::prelude::*;

verus! {

/// The two execution environments a project can live in.  Every
/// operation is bound to exactly one of them; there is no mixed
/// operation.
#[derive(Clone, Copy, Debug, PartialEq, Eq, Structural)]
pub enum Environment {
    /// The host's own filesystem and process space.
    Native,
    /// A secondary filesystem/process space reached by proxying each
    /// command through a bridge tool; may be transiently unreachable.
    Bridged,
}

/// Snapshot of a repository's version-control state, computed fresh per
/// probe and immutable once constructed.
#[derive(Clone, Debug)]
pub struct GitStatus {
    /// Current branch name; empty if detached or undeterminable.
    pub branch: String,
    /// True exactly when there are zero uncommitted entries.
    pub is_clean: bool,
    /// Commits ahead of the configured upstream; 0 when no upstream.
    pub commits_ahead: i32,
    /// Commits behind the configured upstream; 0 when no upstream.
    pub commits_behind: i32,
    /// Count of `status --porcelain` lines; never negative.
    pub uncommitted_files: i32,
}

impl GitStatus {
    /// Well-formedness: cleanliness mirrors the uncommitted count, and
    /// all counts are non-negative.
    pub open spec fn wf(self) -> bool {
        &&& self.is_clean == (self.uncommitted_files == 0)
        &&& self.commits_ahead >= 0
        &&& self.commits_behind >= 0
        &&& self.uncommitted_files >= 0
    }
}

/// A discovered project.  Created fresh on every scan and never mutated
/// in place.
#[derive(Clone, Debug)]
pub struct Project {
    /// Leaf directory name.
    pub name: String,
    /// Full path, unique within one scan and environment-qualified.
    pub path: String,
    /// Seconds since the epoch from filesystem metadata; 0 if unknown
    /// (always 0 for bridged-environment entries).
    pub last_opened: u64,
    /// Present exactly when the path denoted a version-controlled
    /// directory at probe time; absent before probing.
    pub git_status: Option<GitStatus>,
    /// Owned by the excluded persistence collaborator; always false at
    /// creation time here.
    pub is_pinned: bool,
}

/// Raw result of one out-of-process command, consumed immediately by a
/// success-path parser or the error classifier.
#[derive(Clone, Debug)]
pub struct CommandOutcome {
    /// Whether the process exited successfully.
    pub exit_succeeded: bool,
    /// Captured standard output.
    pub stdout: String,
    /// Captured standard error.
    pub stderr: String,
}

/// One record of the commit history, parsed from a five-field log line.
#[derive(Clone, Debug)]
pub struct CommitEntry {
    pub hash: String,
    pub author: String,
    pub email: String,
    /// Author time in seconds since the epoch; 0 when unparsable.
    pub timestamp: i64,
    pub message: String,
}

} // verus!
