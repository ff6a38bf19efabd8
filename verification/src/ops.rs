//! Interpretation of raw command outcomes for each logical operation:
//! the success-path value, or a classified error with a human-readable
//! message.  A `None`/`Err` outcome argument stands for a process that
//! could not even be spawned.

use vstd::prelude::*;
use crate::classify::{classify_spec, classify_outcome, combined_spec, combined_output, ErrorKind};
use crate::model::{CommandOutcome, CommitEntry};
use crate::parse::{
    branches_spec, commit_matches, history_lines_spec, parse_branches, parse_commit_log,
};
use crate::text::{lines_spec, trim_spec, trim_str, views_of};

verus! {

/// Interprets a pull outcome: the raw stdout on success, and on
/// failure a message picked by the classification of the combined
/// output — an error exactly when the process failed.
pub fn interpret_pull(outcome: &CommandOutcome) -> (r: Result<String, String>)
    ensures
        outcome.exit_succeeded ==> (r matches Ok(m) && m@ == outcome.stdout@),
        !outcome.exit_succeeded ==> (r matches Err(m) && m@ == ({
            let c = classify_spec(combined_spec(*outcome));
            if c == ErrorKind::NotARepository {
                "Not a git repository"@
            } else if c == ErrorKind::NoUpstreamBranch {
                "No remote tracking branch. This project may not have been pushed yet."@
            } else {
                "Pull failed: "@ + combined_spec(*outcome)
            }
        })),
{
    if outcome.exit_succeeded {
        Ok(outcome.stdout.clone())
    } else {
        let kind = classify_outcome(outcome);
        match kind {
            ErrorKind::NotARepository => Err(String::from_str("Not a git repository")),
            ErrorKind::NoUpstreamBranch => Err(
                String::from_str(
                    "No remote tracking branch. This project may not have been pushed yet.",
                ),
            ),
            _ => Err(String::from_str("Pull failed: ").concat(combined_output(outcome).as_str())),
        }
    }
}

/// Interprets a clone outcome: the repository name on success, the
/// raw stderr behind a fixed prefix on failure.
pub fn interpret_clone(outcome: &CommandOutcome, repo_name: &str) -> (r: Result<String, String>)
    ensures
        outcome.exit_succeeded ==> (r matches Ok(m) && m@ == repo_name@),
        !outcome.exit_succeeded ==> (r matches Err(m) && m@ == "Git clone failed: "@
            + outcome.stderr@),
{
    if outcome.exit_succeeded {
        Ok(repo_name.to_owned())
    } else {
        Err(String::from_str("Git clone failed: ").concat(outcome.stderr.as_str()))
    }
}

/// Interprets a branch-listing outcome: the parsed branch names on
/// success — exactly `branches_spec` of the raw stdout — and a fixed
/// message on failure.
pub fn interpret_branches(outcome: &CommandOutcome) -> (r: Result<Vec<String>, String>)
    ensures
        outcome.exit_succeeded ==> (r matches Ok(bs) && views_of(bs@) == branches_spec(
            outcome.stdout@,
        )),
        !outcome.exit_succeeded ==> (r matches Err(m) && m@ == "Failed to get branches"@),
{
    if outcome.exit_succeeded {
        Ok(parse_branches(outcome.stdout.as_str()))
    } else {
        Err(String::from_str("Failed to get branches"))
    }
}

/// Interprets a branch-switch outcome.
pub fn interpret_switch(outcome: &CommandOutcome, branch: &str) -> (r: Result<String, String>)
    ensures
        outcome.exit_succeeded ==> (r matches Ok(m) && m@ == "Switched to branch '"@ + branch@
            + "'"@),
        !outcome.exit_succeeded ==> (r matches Err(m) && m@ == "Failed to switch branch: "@
            + outcome.stderr@),
{
    if outcome.exit_succeeded {
        Ok(String::from_str("Switched to branch '").concat(branch).concat("'"))
    } else {
        Err(String::from_str("Failed to switch branch: ").concat(outcome.stderr.as_str()))
    }
}

/// Interprets a branch-creation outcome.
pub fn interpret_create_branch(outcome: &CommandOutcome, branch: &str) -> (r: Result<
    String,
    String,
>)
    ensures
        outcome.exit_succeeded ==> (r matches Ok(m) && m@ == "Created and switched to branch '"@
            + branch@ + "'"@),
        !outcome.exit_succeeded ==> (r matches Err(m) && m@ == "Failed to create branch: "@
            + outcome.stderr@),
{
    if outcome.exit_succeeded {
        Ok(String::from_str("Created and switched to branch '").concat(branch).concat("'"))
    } else {
        Err(String::from_str("Failed to create branch: ").concat(outcome.stderr.as_str()))
    }
}

/// Interprets a log outcome: one record per well-formed stdout line on
/// success, a fixed message on failure.
pub fn interpret_history(outcome: &CommandOutcome) -> (r: Result<Vec<CommitEntry>, String>)
    ensures
        outcome.exit_succeeded ==> (r matches Ok(cs) && {
            &&& cs@.len() == history_lines_spec(lines_spec(outcome.stdout@)).len()
            &&& forall|j: int| 0 <= j < cs@.len() ==> commit_matches(
                #[trigger] cs@[j],
                history_lines_spec(lines_spec(outcome.stdout@))[j],
            )
        }),
        !outcome.exit_succeeded ==> (r matches Err(m) && m@ == "Failed to get commit history"@),
{
    if outcome.exit_succeeded {
        Ok(parse_commit_log(outcome.stdout.as_str()))
    } else {
        Err(String::from_str("Failed to get commit history"))
    }
}

/// Interprets a diff outcome: the raw diff text on success.
pub fn interpret_diff(outcome: &CommandOutcome) -> (r: Result<String, String>)
    ensures
        outcome.exit_succeeded ==> (r matches Ok(m) && m@ == outcome.stdout@),
        !outcome.exit_succeeded ==> (r matches Err(m) && m@ == "Failed to get diff"@),
{
    if outcome.exit_succeeded {
        Ok(outcome.stdout.clone())
    } else {
        Err(String::from_str("Failed to get diff"))
    }
}

/// Interprets a stash outcome.  A clean working tree is a benign
/// non-error: the process succeeds, its output classifies as having no
/// local changes, and the caller is told so as a success.
pub fn interpret_stash(outcome: &CommandOutcome) -> (r: Result<String, String>)
    ensures
        outcome.exit_succeeded ==> (r matches Ok(m) && m@ == if classify_spec(
            combined_spec(*outcome),
        ) == ErrorKind::NoLocalChanges {
            "No changes to stash"@
        } else {
            "Changes stashed successfully"@
        }),
        !outcome.exit_succeeded ==> (r matches Err(m) && m@ == "Failed to stash changes"@),
{
    if outcome.exit_succeeded {
        let kind = classify_outcome(outcome);
        if kind == ErrorKind::NoLocalChanges {
            Ok(String::from_str("No changes to stash"))
        } else {
            Ok(String::from_str("Changes stashed successfully"))
        }
    } else {
        Err(String::from_str("Failed to stash changes"))
    }
}

/// Interprets a stash-pop outcome.  An empty stash is reported with
/// its own message; any other failure carries the raw stderr.
pub fn interpret_stash_pop(outcome: &CommandOutcome) -> (r: Result<String, String>)
    ensures
        outcome.exit_succeeded ==> (r matches Ok(m) && m@ == "Stash applied successfully"@),
        !outcome.exit_succeeded ==> (r matches Err(m) && m@ == if classify_spec(
            combined_spec(*outcome),
        ) == ErrorKind::NoStashEntries {
            "No stashed changes to restore"@
        } else {
            "Failed to apply stash: "@ + outcome.stderr@
        }),
{
    if outcome.exit_succeeded {
        Ok(String::from_str("Stash applied successfully"))
    } else {
        let kind = classify_outcome(outcome);
        if kind == ErrorKind::NoStashEntries {
            Err(String::from_str("No stashed changes to restore"))
        } else {
            Err(String::from_str("Failed to apply stash: ").concat(outcome.stderr.as_str()))
        }
    }
}

/// Picks the hosting-service token: a pre-set ambient value first,
/// else the trimmed output of the pre-authenticated helper tool when
/// it succeeded and printed one, else a typed refusal.
pub fn interpret_token_lookup(
    ambient: Option<&str>,
    helper: Option<&CommandOutcome>,
) -> (r: Result<String, String>)
    ensures
        ambient matches Some(t) ==> (r matches Ok(tok) && tok@ == t@),
        ambient is None ==> {
            let ok = helper matches Some(o) && o.exit_succeeded && trim_spec(o.stdout@).len() > 0;
            if ok {
                r matches Ok(tok) && tok@ == trim_spec(helper.unwrap().stdout@)
            } else {
                r matches Err(m) && m@
                    == "GitHub token not found. Please run 'gh auth login' or set GITHUB_TOKEN environment variable."@
            }
        },
{
    if let Some(t) = ambient {
        return Ok(t.to_owned());
    }
    if let Some(o) = helper {
        if o.exit_succeeded {
            let token = trim_str(o.stdout.as_str());
            if !token.as_str().is_empty() {
                return Ok(token);
            }
        }
    }
    Err(
        String::from_str(
            "GitHub token not found. Please run 'gh auth login' or set GITHUB_TOKEN environment variable.",
        ),
    )
}

/// Interprets the helper tool's authentication check: its absence,
/// an unauthenticated state, and the trimmed username of the account
/// query when one came back.
pub fn interpret_auth_check(
    status: Option<&CommandOutcome>,
    user: Option<&CommandOutcome>,
) -> (r: Result<String, String>)
    ensures
        status is None ==> (r matches Err(m) && m@ == "gh_not_installed"@),
        status matches Some(o) && !o.exit_succeeded ==> (r matches Err(m) && m@
            == "not_authenticated"@),
        status matches Some(o) && o.exit_succeeded ==> match user {
            Some(u) => (r matches Ok(m) && m@ == trim_spec(u.stdout@)),
            None => (r matches Ok(m) && m@ == "authenticated"@),
        },
{
    match status {
        None => Err(String::from_str("gh_not_installed")),
        Some(o) => {
            if o.exit_succeeded {
                match user {
                    Some(u) => Ok(trim_str(u.stdout.as_str())),
                    None => Ok(String::from_str("authenticated")),
                }
            } else {
                Err(String::from_str("not_authenticated"))
            }
        },
    }
}

/// Decides the outcome of a hosting-service repository deletion from
/// the response status: an absent repository is as good as a deleted
/// one, and any other failure surfaces the response body.
pub fn interpret_repo_deletion(status_success: bool, status_code: u16, body: &str) -> (r: Result<
    (),
    String,
>)
    ensures
        status_success || status_code == 404 ==> r is Ok,
        !(status_success || status_code == 404) ==> (r matches Err(m) && m@
            == "GitHub API error: "@ + body@),
{
    if status_success || status_code == 404 {
        Ok(())
    } else {
        Err(String::from_str("GitHub API error: ").concat(body))
    }
}

/// Message for a project folder that is not there to delete.
pub fn missing_project_message(path: &str) -> (r: String)
    ensures
        r@ == "Project folder does not exist: "@ + path@,
{
    String::from_str("Project folder does not exist: ").concat(path)
}

/// Interprets a bridged project deletion run through the bridge tool.
pub fn interpret_bridged_delete(outcome: &CommandOutcome) -> (r: Result<(), String>)
    ensures
        outcome.exit_succeeded ==> r is Ok,
        !outcome.exit_succeeded ==> (r matches Err(m) && m@ == "Failed to delete WSL project: "@
            + outcome.stderr@),
{
    if outcome.exit_succeeded {
        Ok(())
    } else {
        Err(String::from_str("Failed to delete WSL project: ").concat(outcome.stderr.as_str()))
    }
}

/// Message for a failed native folder deletion: a permission problem
/// reads as the folder being held open, anything else carries the
/// filesystem error.
pub fn native_delete_error_message(path: &str, permission_denied: bool, err: &str) -> (r: String)
    ensures
        permission_denied ==> r@
            == "Cannot delete project - please close VSCode or any programs using this folder first"@,
        !permission_denied ==> r@ == "Failed to delete project folder '"@ + path@ + "': "@ + err@,
{
    if permission_denied {
        String::from_str(
            "Cannot delete project - please close VSCode or any programs using this folder first",
        )
    } else {
        String::from_str("Failed to delete project folder '").concat(path).concat("': ").concat(
            err,
        )
    }
}

} // verus!
