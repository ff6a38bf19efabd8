//! Builds a `GitStatus` snapshot from the raw output of the three
//! status-probe commands: current branch, porcelain status, and the
//! ahead/behind count against the upstream.

use vstd::prelude::*;
use crate::model::{Environment, GitStatus};
use crate::numbers::parse_i32_spec;
use crate::numbers::parse_i32_str;
use crate::text::{lines_spec, split_lines, split_ws_spec, split_ws_str, trim_spec, trim_str, views_of};

verus! {

/// A count read from one whitespace-separated field: the parsed value
/// when it parses as a non-negative number, 0 otherwise.
pub open spec fn count_field_spec(s: Seq<char>) -> int {
    match parse_i32_spec(s) {
        Some(v) => if v >= 0 {
            v as int
        } else {
            0
        },
        None => 0,
    }
}

/// How many of the given lines are non-empty.
pub open spec fn count_nonempty(ls: Seq<Seq<char>>) -> int
    decreases ls.len(),
{
    if ls.len() == 0 {
        0
    } else {
        count_nonempty(ls.drop_last()) + if ls.last().len() > 0 {
            1int
        } else {
            0int
        }
    }
}

/// The uncommitted-file count a porcelain status output stands for.
/// The native probe counts every line; the bridged probe issues its
/// command through a shell whose failure fallback prints an empty
/// line, so it counts only non-empty lines.
pub open spec fn status_line_count_spec(s: Seq<char>, env: Environment) -> int {
    match env {
        Environment::Native => lines_spec(s).len() as int,
        Environment::Bridged => count_nonempty(lines_spec(s)),
    }
}

/// The ahead/behind pair a `rev-list --left-right --count` output
/// stands for: the first two whitespace-separated fields when the
/// field count fits the probe's expectation, otherwise (0, 0) — no
/// upstream configured reads as neither ahead nor behind.
pub open spec fn ahead_behind_spec(s: Seq<char>, env: Environment) -> (int, int) {
    let parts = split_ws_spec(s);
    let enough = match env {
        Environment::Native => parts.len() == 2,
        Environment::Bridged => parts.len() >= 2,
    };
    if enough {
        (count_field_spec(parts[0]), count_field_spec(parts[1]))
    } else {
        (0, 0)
    }
}

/// Everything `build_git_status` promises of its result, given the
/// three raw outputs it was built from.
pub open spec fn git_status_matches(
    r: GitStatus,
    env: Environment,
    branch_out: Seq<char>,
    status_out: Seq<char>,
    rev_out: Seq<char>,
) -> bool {
    &&& r.branch@ == trim_spec(branch_out)
    &&& r.uncommitted_files as int == if status_line_count_spec(status_out, env) > i32::MAX as int {
        i32::MAX as int
    } else {
        status_line_count_spec(status_out, env)
    }
    &&& (r.commits_ahead as int, r.commits_behind as int) == ahead_behind_spec(rev_out, env)
}

/// Reads one field as a non-negative count, with 0 for anything
/// unparsable or negative.
fn parse_count_field(s: &str) -> (r: i32)
    ensures
        r as int == count_field_spec(s@),
        r >= 0,
{
    match parse_i32_str(s) {
        Some(v) => if v >= 0 {
            v
        } else {
            0
        },
        None => 0,
    }
}

/// Parses the ahead/behind counts out of a raw rev-list output.
pub fn parse_ahead_behind(s: &str, env: Environment) -> (r: (i32, i32))
    ensures
        (r.0 as int, r.1 as int) == ahead_behind_spec(s@, env),
        r.0 >= 0,
        r.1 >= 0,
{
    let parts = split_ws_str(s);
    let enough = match env {
        Environment::Native => parts.len() == 2,
        Environment::Bridged => parts.len() >= 2,
    };
    if enough {
        proof {
            assert(views_of(parts@)[0] == parts@[0]@);
            assert(views_of(parts@)[1] == parts@[1]@);
        }
        (parse_count_field(parts[0].as_str()), parse_count_field(parts[1].as_str()))
    } else {
        (0, 0)
    }
}

/// Counts the uncommitted files a porcelain status output reports,
/// saturating at `i32::MAX`.
pub fn count_status_lines(s: &str, env: Environment) -> (r: i32)
    ensures
        r as int == if status_line_count_spec(s@, env) > i32::MAX as int {
            i32::MAX as int
        } else {
            status_line_count_spec(s@, env)
        },
        r >= 0,
{
    let ls = split_lines(s);
    let count: usize = match env {
        Environment::Native => ls.len(),
        Environment::Bridged => {
            let mut cnt: usize = 0;
            let mut i: usize = 0;
            while i < ls.len()
                invariant
                    i <= ls@.len(),
                    cnt <= i,
                    cnt == count_nonempty(views_of(ls@).take(i as int)),
                decreases ls@.len() - i,
            {
                proof {
                    assert(views_of(ls@).take(i + 1).drop_last() =~= views_of(ls@).take(i as int));
                    assert(views_of(ls@).take(i + 1).last() == ls@[i as int]@);
                }
                if !ls[i].as_str().is_empty() {
                    cnt += 1;
                }
                i += 1;
            }
            proof {
                assert(views_of(ls@).take(ls@.len() as int) =~= views_of(ls@));
            }
            cnt
        },
    };
    if count > 2147483647 {
        2147483647
    } else {
        count as i32
    }
}

/// Builds the status snapshot the three probe outputs stand for.  The
/// result is well formed: in particular `is_clean` holds exactly when
/// `uncommitted_files` is zero.
pub fn build_git_status(
    env: Environment,
    branch_out: &str,
    status_out: &str,
    rev_out: &str,
) -> (r: GitStatus)
    ensures
        r.wf(),
        git_status_matches(r, env, branch_out@, status_out@, rev_out@),
{
    let branch = trim_str(branch_out);
    let uncommitted_files = count_status_lines(status_out, env);
    let (commits_ahead, commits_behind) = parse_ahead_behind(rev_out, env);
    let is_clean = uncommitted_files == 0;
    GitStatus { branch, is_clean, commits_ahead, commits_behind, uncommitted_files }
}

} // verus!
