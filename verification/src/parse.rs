//! Success-path parsers for git output: branch listings, formatted
//! commit logs, and repository names taken from clone URLs.

use vstd::prelude::*;
use crate::model::CommitEntry;
use crate::numbers::parse_i64_spec;
use crate::numbers::parse_i64_str;
use crate::text::{
    contains_seq, contains_str, lines_spec, split_lines, splitn_spec, splitn_str,
    strip_prefix_all, strip_prefix_all_str, strip_suffix_all, strip_suffix_all_str, trim_spec,
    trim_str, views_of,
};

verus! {

/// The branch name a raw `branch --all` line stands for: trimmed, with
/// the current-branch marker and any remote-tracking prefix removed.
pub open spec fn branch_entry_spec(line: Seq<char>) -> Seq<char> {
    strip_prefix_all(strip_prefix_all(trim_spec(line), "* "@), "remotes/origin/"@)
}

/// Whether the line's entry is kept: non-empty and not the symbolic
/// HEAD pointer pseudo-entry a remote listing contains.
pub open spec fn branch_kept(line: Seq<char>) -> bool {
    branch_entry_spec(line).len() > 0 && !contains_seq(branch_entry_spec(line), "HEAD ->"@)
}

/// The entries of the kept lines, in order.
pub open spec fn branches_of_lines(ls: Seq<Seq<char>>) -> Seq<Seq<char>>
    decreases ls.len(),
{
    if ls.len() == 0 {
        Seq::empty()
    } else {
        let rest = branches_of_lines(ls.drop_last());
        if branch_kept(ls.last()) {
            rest.push(branch_entry_spec(ls.last()))
        } else {
            rest
        }
    }
}

/// The branch names a raw `branch --all` output stands for.
pub open spec fn branches_spec(s: Seq<char>) -> Seq<Seq<char>> {
    branches_of_lines(lines_spec(s))
}

/// Every returned branch name is non-empty and no symbolic HEAD
/// pointer pseudo-entry survives the parse.
pub proof fn lemma_branches_exclude_head_pointer(ls: Seq<Seq<char>>)
    ensures
        forall|j: int| 0 <= j < branches_of_lines(ls).len() ==> {
            &&& branches_of_lines(ls)[j].len() > 0
            &&& !contains_seq(#[trigger] branches_of_lines(ls)[j], "HEAD ->"@)
        },
    decreases ls.len(),
{
    if ls.len() > 0 {
        lemma_branches_exclude_head_pointer(ls.drop_last());
        let rest = branches_of_lines(ls.drop_last());
        if branch_kept(ls.last()) {
            assert forall|j: int| 0 <= j < branches_of_lines(ls).len() implies {
                &&& branches_of_lines(ls)[j].len() > 0
                &&& !contains_seq(#[trigger] branches_of_lines(ls)[j], "HEAD ->"@)
            } by {
                if j < rest.len() {
                    assert(branches_of_lines(ls)[j] == rest[j]);
                } else {
                    assert(branches_of_lines(ls)[j] == branch_entry_spec(ls.last()));
                }
            }
        }
    }
}

/// Parses a raw `branch --all` output into branch names.
pub fn parse_branches(s: &str) -> (r: Vec<String>)
    ensures
        views_of(r@) == branches_spec(s@),
{
    proof {
        reveal_strlit("* ");
        reveal_strlit("remotes/origin/");
    }
    let ls = split_lines(s);
    let mut out: Vec<String> = Vec::new();
    let mut i: usize = 0;
    proof {
        assert(views_of(out@) =~~= branches_of_lines(views_of(ls@).take(0)));
    }
    while i < ls.len()
        invariant
            i <= ls@.len(),
            views_of(out@) == branches_of_lines(views_of(ls@).take(i as int)),
        decreases ls@.len() - i,
    {
        let ghost prev = out@;
        proof {
            reveal_strlit("* ");
            reveal_strlit("remotes/origin/");
            assert(views_of(ls@).take(i + 1).drop_last() =~= views_of(ls@).take(i as int));
            assert(views_of(ls@).take(i + 1).last() == ls@[i as int]@);
        }
        let trimmed = trim_str(ls[i].as_str());
        let no_marker = strip_prefix_all_str(trimmed.as_str(), "* ");
        let entry = strip_prefix_all_str(no_marker.as_str(), "remotes/origin/");
        if !entry.as_str().is_empty() && !contains_str(entry.as_str(), "HEAD ->") {
            out.push(entry);
            proof {
                assert(views_of(out@) =~~= views_of(prev).push(
                    branch_entry_spec(ls@[i as int]@),
                ));
            }
        }
        i += 1;
    }
    proof {
        assert(views_of(ls@).take(ls@.len() as int) =~= views_of(ls@));
    }
    out
}

/// The five delimiter-separated fields of a well-formed log line:
/// hash, author name, author email, epoch timestamp, subject.
pub open spec fn commit_fields_spec(line: Seq<char>) -> Seq<Seq<char>> {
    splitn_spec(line, '|', 5)
}

/// A log line opens a record only when it splits into exactly five
/// fields; other lines are silently dropped.
pub open spec fn commit_line_ok(line: Seq<char>) -> bool {
    commit_fields_spec(line).len() == 5
}

/// The record a well-formed log line stands for, with an unparsable
/// timestamp read as 0.
pub open spec fn commit_matches(e: CommitEntry, line: Seq<char>) -> bool {
    let p = commit_fields_spec(line);
    &&& e.hash@ == p[0]
    &&& e.author@ == p[1]
    &&& e.email@ == p[2]
    &&& e.timestamp as int == match parse_i64_spec(p[3]) {
        Some(v) => v as int,
        None => 0,
    }
    &&& e.message@ == p[4]
}

/// The well-formed lines of a log output, in order.
pub open spec fn history_lines_spec(ls: Seq<Seq<char>>) -> Seq<Seq<char>>
    decreases ls.len(),
{
    if ls.len() == 0 {
        Seq::empty()
    } else {
        let rest = history_lines_spec(ls.drop_last());
        if commit_line_ok(ls.last()) {
            rest.push(ls.last())
        } else {
            rest
        }
    }
}

/// Parses a formatted log output into commit records: one per line
/// that splits into exactly five fields, malformed lines dropped.
pub fn parse_commit_log(s: &str) -> (r: Vec<CommitEntry>)
    ensures
        r@.len() == history_lines_spec(lines_spec(s@)).len(),
        forall|j: int| 0 <= j < r@.len() ==> commit_matches(
            #[trigger] r@[j],
            history_lines_spec(lines_spec(s@))[j],
        ),
{
    let ls = split_lines(s);
    let mut out: Vec<CommitEntry> = Vec::new();
    let mut i: usize = 0;
    proof {
        assert(views_of(ls@).take(0) =~~= Seq::<Seq<char>>::empty());
    }
    while i < ls.len()
        invariant
            i <= ls@.len(),
            out@.len() == history_lines_spec(views_of(ls@).take(i as int)).len(),
            forall|j: int| 0 <= j < out@.len() ==> commit_matches(
                #[trigger] out@[j],
                history_lines_spec(views_of(ls@).take(i as int))[j],
            ),
        decreases ls@.len() - i,
    {
        proof {
            assert(views_of(ls@).take(i + 1).drop_last() =~= views_of(ls@).take(i as int));
            assert(views_of(ls@).take(i + 1).last() == ls@[i as int]@);
        }
        let parts = splitn_str(ls[i].as_str(), '|', 5);
        if parts.len() == 5 {
            proof {
                assert(views_of(parts@)[0] == parts@[0]@);
                assert(views_of(parts@)[1] == parts@[1]@);
                assert(views_of(parts@)[2] == parts@[2]@);
                assert(views_of(parts@)[3] == parts@[3]@);
                assert(views_of(parts@)[4] == parts@[4]@);
            }
            let timestamp = match parse_i64_str(parts[3].as_str()) {
                Some(v) => v,
                None => 0,
            };
            let entry = CommitEntry {
                hash: parts[0].clone(),
                author: parts[1].clone(),
                email: parts[2].clone(),
                timestamp,
                message: parts[4].clone(),
            };
            out.push(entry);
        }
        i += 1;
    }
    proof {
        assert(views_of(ls@).take(ls@.len() as int) =~= views_of(ls@));
    }
    out
}

/// Index of the last occurrence of `c` in `s`, if any.
pub open spec fn last_index_of_char(s: Seq<char>, c: char) -> Option<int>
    decreases s.len(),
{
    if s.len() == 0 {
        None
    } else if s.last() == c {
        Some(s.len() - 1)
    } else {
        last_index_of_char(s.drop_last(), c)
    }
}

/// The piece of `s` after the last occurrence of `c`, or all of `s`.
pub open spec fn last_segment_spec(s: Seq<char>, c: char) -> Seq<char> {
    match last_index_of_char(s, c) {
        Some(i) => s.skip(i + 1),
        None => s,
    }
}

/// The repository name a clone URL stands for: the piece after the
/// last slash, once any trailing `.git` is removed.
pub open spec fn repo_name_spec(url: Seq<char>) -> Seq<char> {
    last_segment_spec(strip_suffix_all(url, ".git"@), '/')
}

proof fn lemma_last_index_of_char_at(s: Seq<char>, c: char, i: int)
    requires
        0 <= i < s.len(),
        s[i] == c,
        forall|k: int| i < k < s.len() ==> s[k] != c,
    ensures
        last_index_of_char(s, c) == Some(i),
    decreases s.len(),
{
    if i < s.len() - 1 {
        assert(s.last() != c);
        assert forall|k: int| i < k < s.drop_last().len() implies s.drop_last()[k] != c by {
            assert(s.drop_last()[k] == s[k]);
        }
        assert(s.drop_last()[i] == s[i]);
        lemma_last_index_of_char_at(s.drop_last(), c, i);
    }
}

proof fn lemma_last_index_of_char_none(s: Seq<char>, c: char)
    requires
        forall|k: int| 0 <= k < s.len() ==> s[k] != c,
    ensures
        last_index_of_char(s, c) == None::<int>,
    decreases s.len(),
{
    if s.len() > 0 {
        assert forall|k: int| 0 <= k < s.drop_last().len() implies s.drop_last()[k] != c by {
            assert(s.drop_last()[k] == s[k]);
        }
        lemma_last_index_of_char_none(s.drop_last(), c);
    }
}

/// The piece of `s` after the last occurrence of `c`.
pub fn last_segment(s: &str, c: char) -> (r: String)
    ensures
        r@ == last_segment_spec(s@, c),
{
    let n = s.unicode_len();
    let mut cut: usize = 0;
    let mut i: usize = 0;
    // After the scan, `cut` is one past the last separator, or 0.
    while i < n
        invariant
            n == s@.len(),
            i <= n,
            cut <= i,
            cut > 0 ==> s@[cut - 1] == c,
            forall|k: int| cut <= k < i ==> s@[k] != c,
        decreases n - i,
    {
        if s.get_char(i) == c {
            cut = i + 1;
        }
        i += 1;
    }
    proof {
        if cut > 0 {
            lemma_last_index_of_char_at(s@, c, cut - 1);
        } else {
            lemma_last_index_of_char_none(s@, c);
        }
        assert(s@.skip(cut as int) =~= s@.subrange(cut as int, n as int));
        if cut == 0 {
            assert(s@.subrange(0, n as int) =~= s@);
        }
    }
    s.substring_char(cut, n).to_owned()
}

/// Extracts the repository name from a clone URL.
pub fn repo_name_from_url(url: &str) -> (r: String)
    ensures
        r@ == repo_name_spec(url@),
{
    proof {
        reveal_strlit(".git");
    }
    let stripped = strip_suffix_all_str(url, ".git");
    last_segment(stripped.as_str(), '/')
}

} // verus!
