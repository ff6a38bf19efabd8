//! Small verified text utilities over `Seq<char>` views: substring
//! search, prefix/suffix stripping, whitespace trimming, line and field
//! splitting, and decimal parsing.  Raw process output is handed to the
//! parsers in this crate as `&str`, and every contract here speaks of
//! the string's view.

use vstd::prelude::*;

verus! {

/// The ASCII whitespace characters that appear in process output.
pub open spec fn is_space_char(c: char) -> bool {
    c == ' ' || c == '\t' || c == '\n' || c == '\r'
}

/// `pat` occurs in `text` starting at index `i`.
pub open spec fn contains_at(text: Seq<char>, pat: Seq<char>, i: int) -> bool {
    0 <= i && i + pat.len() <= text.len() && text.subrange(i, i + pat.len() as int) == pat
}

/// `pat` occurs somewhere in `text`.
pub open spec fn contains_seq(text: Seq<char>, pat: Seq<char>) -> bool {
    exists|i: int| contains_at(text, pat, i)
}

/// `s` begins with `p`.
pub open spec fn starts_with_seq(s: Seq<char>, p: Seq<char>) -> bool {
    p.len() <= s.len() && s.subrange(0, p.len() as int) == p
}

/// `s` ends with `p`.
pub open spec fn ends_with_seq(s: Seq<char>, p: Seq<char>) -> bool {
    p.len() <= s.len() && s.subrange(s.len() - p.len(), s.len() as int) == p
}

/// Index of the first occurrence of `c` in `s`, if any.
pub open spec fn index_of_char(s: Seq<char>, c: char) -> Option<int>
    decreases s.len(),
{
    if s.len() == 0 {
        None
    } else if s[0] == c {
        Some(0)
    } else {
        match index_of_char(s.drop_first(), c) {
            Some(i) => Some(i + 1),
            None => None,
        }
    }
}

/// What `index_of_char` returns: the first position holding `c`, or
/// nothing when `c` does not occur.
pub proof fn lemma_index_of_char(s: Seq<char>, c: char)
    ensures
        match index_of_char(s, c) {
            Some(i) => 0 <= i < s.len() && s[i] == c && forall|k: int| 0 <= k < i ==> s[k] != c,
            None => forall|k: int| 0 <= k < s.len() ==> s[k] != c,
        },
    decreases s.len(),
{
    if s.len() > 0 && s[0] != c {
        lemma_index_of_char(s.drop_first(), c);
        match index_of_char(s.drop_first(), c) {
            Some(i) => {
                assert(s[i + 1] == s.drop_first()[i]);
                assert forall|k: int| 0 <= k < i + 1 implies s[k] != c by {
                    if k >= 1 {
                        assert(s.drop_first()[k - 1] == s[k]);
                    }
                }
            },
            None => {
                assert forall|k: int| 0 <= k < s.len() implies s[k] != c by {
                    if k >= 1 {
                        assert(s.drop_first()[k - 1] == s[k]);
                    }
                }
            },
        }
    }
}

/// The converse: a first occurrence at `i` pins `index_of_char` down.
pub proof fn lemma_index_of_char_at(s: Seq<char>, c: char, i: int)
    requires
        0 <= i < s.len(),
        s[i] == c,
        forall|k: int| 0 <= k < i ==> s[k] != c,
    ensures
        index_of_char(s, c) == Some(i),
    decreases s.len(),
{
    if i > 0 {
        assert forall|k: int| 0 <= k < i - 1 implies s.drop_first()[k] != c by {
            assert(s.drop_first()[k] == s[k + 1]);
        }
        assert(s.drop_first()[i - 1] == c);
        lemma_index_of_char_at(s.drop_first(), c, i - 1);
    }
}

/// `c` does not occur in `s` at all.
pub proof fn lemma_index_of_char_none(s: Seq<char>, c: char)
    requires
        forall|k: int| 0 <= k < s.len() ==> s[k] != c,
    ensures
        index_of_char(s, c) == None::<int>,
    decreases s.len(),
{
    if s.len() > 0 {
        assert forall|k: int| 0 <= k < s.drop_first().len() implies s.drop_first()[k] != c by {
            assert(s.drop_first()[k] == s[k + 1]);
        }
        lemma_index_of_char_none(s.drop_first(), c);
    }
}

/// Whether `pat` occurs in `text`, by direct search.
pub fn contains_str(text: &str, pat: &str) -> (r: bool)
    ensures
        r == contains_seq(text@, pat@),
{
    let n = text.unicode_len();
    let m = pat.unicode_len();
    if m > n {
        assert(!contains_seq(text@, pat@));
        return false;
    }
    if m == 0 {
        assert(text@.subrange(0, 0) =~= pat@);
        assert(contains_at(text@, pat@, 0));
        return true;
    }
    let mut i: usize = 0;
    while i <= n - m
        invariant
            1 <= m <= n,
            n == text@.len(),
            m == pat@.len(),
            i <= n - m + 1,
            forall|k: int| 0 <= k < i ==> !contains_at(text@, pat@, k),
        decreases n - m + 1 - i,
    {
        let mut j: usize = 0;
        let mut matched = true;
        while j < m
            invariant
                m <= n,
                n == text@.len(),
                m == pat@.len(),
                i <= n - m,
                j <= m,
                matched ==> forall|l: int| 0 <= l < j ==> text@[i + l] == pat@[l],
                !matched ==> exists|l: int| 0 <= l < m && text@[i + l] != pat@[l],
            decreases m - j,
        {
            if text.get_char(i + j) != pat.get_char(j) {
                matched = false;
                j = m;
            } else {
                j += 1;
            }
        }
        if matched {
            assert(text@.subrange(i as int, i + m as int) =~= pat@);
            assert(contains_at(text@, pat@, i as int));
            return true;
        }
        proof {
            let l = choose|l: int| 0 <= l < m && text@[i + l] != pat@[l];
            if contains_at(text@, pat@, i as int) {
                assert(text@.subrange(i as int, i + m as int)[l] == text@[i + l]);
            }
        }
        i += 1;
    }
    assert forall|k: int| !contains_at(text@, pat@, k) by {
        if 0 <= k && k + pat@.len() <= text@.len() {
            assert(k < i);
        }
    }
    false
}

/// Whether `s` begins with `p`.
pub fn starts_with_str(s: &str, p: &str) -> (r: bool)
    ensures
        r == starts_with_seq(s@, p@),
{
    let n = s.unicode_len();
    let m = p.unicode_len();
    if m > n {
        return false;
    }
    let mut j: usize = 0;
    while j < m
        invariant
            m <= n,
            n == s@.len(),
            m == p@.len(),
            j <= m,
            forall|l: int| 0 <= l < j ==> s@[l] == p@[l],
        decreases m - j,
    {
        if s.get_char(j) != p.get_char(j) {
            assert(s@.subrange(0, m as int)[j as int] != p@[j as int]);
            return false;
        }
        j += 1;
    }
    assert(s@.subrange(0, m as int) =~= p@);
    true
}

/// Whether `s` ends with `p`.
pub fn ends_with_str(s: &str, p: &str) -> (r: bool)
    ensures
        r == ends_with_seq(s@, p@),
{
    let n = s.unicode_len();
    let m = p.unicode_len();
    if m > n {
        return false;
    }
    let mut j: usize = 0;
    while j < m
        invariant
            m <= n,
            n == s@.len(),
            m == p@.len(),
            j <= m,
            forall|l: int| 0 <= l < j ==> s@[n - m + l] == p@[l],
        decreases m - j,
    {
        if s.get_char(n - m + j) != p.get_char(j) {
            assert(s@.subrange(n - m as int, n as int)[j as int] != p@[j as int]);
            return false;
        }
        j += 1;
    }
    assert(s@.subrange(n - m as int, n as int) =~= p@);
    true
}

/// Whether two strings hold the same characters.
pub fn str_eq(a: &str, b: &str) -> (r: bool)
    ensures
        r == (a@ == b@),
{
    let n = a.unicode_len();
    let m = b.unicode_len();
    if n != m {
        return false;
    }
    let mut i: usize = 0;
    while i < n
        invariant
            n == a@.len(),
            n == b@.len(),
            i <= n,
            forall|k: int| 0 <= k < i ==> a@[k] == b@[k],
        decreases n - i,
    {
        if a.get_char(i) != b.get_char(i) {
            return false;
        }
        i += 1;
    }
    assert(a@ =~= b@);
    true
}

/// `s` without leading whitespace.
pub open spec fn trim_front(s: Seq<char>) -> Seq<char>
    decreases s.len(),
{
    if s.len() > 0 && is_space_char(s[0]) {
        trim_front(s.drop_first())
    } else {
        s
    }
}

/// `s` without trailing whitespace.
pub open spec fn trim_back(s: Seq<char>) -> Seq<char>
    decreases s.len(),
{
    if s.len() > 0 && is_space_char(s.last()) {
        trim_back(s.drop_last())
    } else {
        s
    }
}

/// `s` without leading and trailing whitespace.
pub open spec fn trim_spec(s: Seq<char>) -> Seq<char> {
    trim_back(trim_front(s))
}

proof fn lemma_trim_front_skip(s: Seq<char>, i: int)
    requires
        0 <= i <= s.len(),
        forall|k: int| 0 <= k < i ==> is_space_char(s[k]),
        i < s.len() ==> !is_space_char(s[i]),
    ensures
        trim_front(s) == s.skip(i),
    decreases i,
{
    if i == 0 {
        assert(s.skip(0) =~= s);
    } else {
        assert forall|k: int| 0 <= k < i - 1 implies is_space_char(s.drop_first()[k]) by {
            assert(s.drop_first()[k] == s[k + 1]);
        }
        assert(i - 1 < s.drop_first().len() ==> s.drop_first()[i - 1] == s[i]);
        lemma_trim_front_skip(s.drop_first(), i - 1);
        assert(s.drop_first().skip(i - 1) =~= s.skip(i));
    }
}

proof fn lemma_trim_back_take(s: Seq<char>, j: int)
    requires
        -1 <= j < s.len(),
        forall|k: int| j < k < s.len() ==> is_space_char(s[k]),
        j >= 0 ==> !is_space_char(s[j]),
    ensures
        trim_back(s) == s.take(j + 1),
    decreases s.len(),
{
    if j + 1 == s.len() {
        assert(s.take(j + 1) =~= s);
    } else {
        assert(is_space_char(s.last()));
        assert forall|k: int| j < k < s.drop_last().len() implies is_space_char(
            s.drop_last()[k],
        ) by {
            assert(s.drop_last()[k] == s[k]);
        }
        assert(j >= 0 ==> s.drop_last()[j] == s[j]);
        lemma_trim_back_take(s.drop_last(), j);
        assert(s.drop_last().take(j + 1) =~= s.take(j + 1));
    }
}

/// Whether `c` is one of the whitespace characters.
pub fn is_space(c: char) -> (r: bool)
    ensures
        r == is_space_char(c),
{
    c == ' ' || c == '\t' || c == '\n' || c == '\r'
}

/// `s` with leading and trailing whitespace removed.
pub fn trim_str(s: &str) -> (r: String)
    ensures
        r@ == trim_spec(s@),
{
    let n = s.unicode_len();
    let mut i: usize = 0;
    while i < n && is_space(s.get_char(i))
        invariant
            n == s@.len(),
            i <= n,
            forall|k: int| 0 <= k < i ==> is_space_char(s@[k]),
        decreases n - i,
    {
        i += 1;
    }
    if i == n {
        proof {
            lemma_trim_front_skip(s@, i as int);
            assert(s@.skip(n as int) =~= Seq::<char>::empty());
        }
        return String::new();
    }
    let mut j: usize = n - 1;
    while j > i && is_space(s.get_char(j))
        invariant
            n == s@.len(),
            i <= j < n,
            forall|k: int| j < k < n ==> is_space_char(s@[k]),
        decreases j,
    {
        j -= 1;
    }
    let sub = s.substring_char(i, j + 1);
    proof {
        lemma_trim_front_skip(s@, i as int);
        let t = s@.skip(i as int);
        assert forall|k: int| j - i < k < t.len() implies is_space_char(t[k]) by {
            assert(t[k] == s@[k + i]);
        }
        assert(t[j - i] == s@[j as int]);
        lemma_trim_back_take(t, j - i);
        assert(t.take(j - i + 1) =~= s@.subrange(i as int, j + 1));
    }
    sub.to_owned()
}

/// `s` with every copy of the prefix `p` removed from the front.
pub open spec fn strip_prefix_all(s: Seq<char>, p: Seq<char>) -> Seq<char>
    decreases s.len(),
{
    if p.len() > 0 && starts_with_seq(s, p) {
        strip_prefix_all(s.skip(p.len() as int), p)
    } else {
        s
    }
}

/// `s` with every copy of the suffix `p` removed from the end.
pub open spec fn strip_suffix_all(s: Seq<char>, p: Seq<char>) -> Seq<char>
    decreases s.len(),
{
    if p.len() > 0 && ends_with_seq(s, p) {
        strip_suffix_all(s.take(s.len() - p.len()), p)
    } else {
        s
    }
}

/// Removes every leading copy of `p` from `s`.
pub fn strip_prefix_all_str(s: &str, p: &str) -> (r: String)
    requires
        p@.len() > 0,
    ensures
        r@ == strip_prefix_all(s@, p@),
{
    let mut cur: String = s.to_owned();
    let plen = p.unicode_len();
    loop
        invariant
            plen == p@.len(),
            plen > 0,
            strip_prefix_all(s@, p@) == strip_prefix_all(cur@, p@),
        decreases cur@.len(),
    {
        if !starts_with_str(cur.as_str(), p) {
            return cur;
        }
        let n = cur.unicode_len();
        cur = cur.as_str().substring_char(plen, n).to_owned();
    }
}

/// Removes every trailing copy of `p` from `s`.
pub fn strip_suffix_all_str(s: &str, p: &str) -> (r: String)
    requires
        p@.len() > 0,
    ensures
        r@ == strip_suffix_all(s@, p@),
{
    let mut cur: String = s.to_owned();
    let plen = p.unicode_len();
    loop
        invariant
            plen == p@.len(),
            plen > 0,
            strip_suffix_all(s@, p@) == strip_suffix_all(cur@, p@),
        decreases cur@.len(),
    {
        if !ends_with_str(cur.as_str(), p) {
            return cur;
        }
        let n = cur.unicode_len();
        cur = cur.as_str().substring_char(0, n - plen).to_owned();
    }
}

/// The views of a vector of strings.
pub open spec fn views_of(v: Seq<String>) -> Seq<Seq<char>> {
    Seq::new(v.len(), |i: int| v[i]@)
}

/// A line with a trailing carriage return removed.
pub open spec fn strip_cr(s: Seq<char>) -> Seq<char> {
    if s.len() > 0 && s.last() == '\r' {
        s.drop_last()
    } else {
        s
    }
}

/// The lines of `s`: pieces between newline characters, each without a
/// trailing carriage return; a final newline does not open a last,
/// empty line.
pub open spec fn lines_spec(s: Seq<char>) -> Seq<Seq<char>>
    decreases s.len(),
    via lines_spec_decreases
{
    if s.len() == 0 {
        Seq::empty()
    } else {
        match index_of_char(s, '\n') {
            Some(i) => seq![strip_cr(s.take(i))] + lines_spec(s.skip(i + 1)),
            None => seq![strip_cr(s)],
        }
    }
}

#[via_fn]
proof fn lines_spec_decreases(s: Seq<char>) {
    lemma_index_of_char(s, '\n');
}

/// Pieces of `s` between occurrences of `sep`, at most `n` of them;
/// the last piece keeps any further separators.
pub open spec fn splitn_spec(s: Seq<char>, sep: char, n: nat) -> Seq<Seq<char>>
    decreases n,
{
    if n <= 1 {
        seq![s]
    } else {
        match index_of_char(s, sep) {
            Some(i) => seq![s.take(i)] + splitn_spec(s.skip(i + 1), sep, (n - 1) as nat),
            None => seq![s],
        }
    }
}

/// First index at or after `start` holding `c`, if any.
fn find_char_from(s: &str, n: usize, start: usize, c: char) -> (r: Option<usize>)
    requires
        n == s@.len(),
        start <= n,
    ensures
        match r {
            Some(i) => start <= i < n && s@[i as int] == c && forall|k: int|
                start <= k < i ==> s@[k] != c,
            None => forall|k: int| start <= k < n ==> s@[k] != c,
        },
{
    let mut i = start;
    while i < n
        invariant
            n == s@.len(),
            start <= i <= n,
            forall|k: int| start <= k < i ==> s@[k] != c,
        decreases n - i,
    {
        if s.get_char(i) == c {
            return Some(i);
        }
        i += 1;
    }
    None
}

proof fn lemma_lines_step(s: Seq<char>, pos: int, i: int)
    requires
        0 <= pos <= i < s.len(),
        s[i] == '\n',
        forall|k: int| pos <= k < i ==> s[k] != '\n',
    ensures
        lines_spec(s.skip(pos)) == seq![strip_cr(s.subrange(pos, i))] + lines_spec(s.skip(i + 1)),
{
    let t = s.skip(pos);
    assert(t[i - pos] == s[i]);
    assert forall|k: int| 0 <= k < i - pos implies t[k] != '\n' by {
        assert(t[k] == s[k + pos]);
    }
    lemma_index_of_char_at(t, '\n', i - pos);
    assert(t.take(i - pos) =~= s.subrange(pos, i));
    assert(t.skip(i - pos + 1) =~= s.skip(i + 1));
}

proof fn lemma_lines_last(s: Seq<char>, pos: int)
    requires
        0 <= pos < s.len(),
        forall|k: int| pos <= k < s.len() ==> s[k] != '\n',
    ensures
        lines_spec(s.skip(pos)) == seq![strip_cr(s.subrange(pos, s.len() as int))],
{
    let t = s.skip(pos);
    assert forall|k: int| 0 <= k < t.len() implies t[k] != '\n' by {
        assert(t[k] == s[k + pos]);
    }
    lemma_index_of_char_none(t, '\n');
    assert(t =~= s.subrange(pos, s.len() as int));
}

/// Splits `s` into its lines, as `str::lines` does.
pub fn split_lines(s: &str) -> (r: Vec<String>)
    ensures
        views_of(r@) == lines_spec(s@),
{
    let n = s.unicode_len();
    let mut out: Vec<String> = Vec::new();
    let mut pos: usize = 0;
    proof {
        assert(s@.skip(0) =~= s@);
        assert(views_of(out@) + lines_spec(s@) =~~= lines_spec(s@));
    }
    while pos < n
        invariant
            n == s@.len(),
            pos <= n,
            lines_spec(s@) == views_of(out@) + lines_spec(s@.skip(pos as int)),
        decreases n - pos,
    {
        let ghost prev = out@;
        match find_char_from(s, n, pos, '\n') {
            Some(i) => {
                let line_end = if i > pos && s.get_char(i - 1) == '\r' {
                    i - 1
                } else {
                    i
                };
                out.push(s.substring_char(pos, line_end).to_owned());
                proof {
                    lemma_lines_step(s@, pos as int, i as int);
                    assert(strip_cr(s@.subrange(pos as int, i as int)) =~= s@.subrange(
                        pos as int,
                        line_end as int,
                    ));
                    assert(views_of(out@) =~~= views_of(prev) + seq![
                        s@.subrange(pos as int, line_end as int),
                    ]);
                    assert(views_of(prev) + lines_spec(s@.skip(pos as int)) =~~= views_of(out@)
                        + lines_spec(s@.skip(i + 1)));
                }
                pos = i + 1;
            },
            None => {
                let line_end = if s.get_char(n - 1) == '\r' {
                    n - 1
                } else {
                    n
                };
                out.push(s.substring_char(pos, line_end).to_owned());
                proof {
                    lemma_lines_last(s@, pos as int);
                    assert(strip_cr(s@.subrange(pos as int, n as int)) =~= s@.subrange(
                        pos as int,
                        line_end as int,
                    ));
                    assert(views_of(out@) =~~= views_of(prev) + seq![
                        s@.subrange(pos as int, line_end as int),
                    ]);
                    assert(lines_spec(s@.skip(n as int)) =~~= Seq::<Seq<char>>::empty());
                    assert(views_of(prev) + lines_spec(s@.skip(pos as int)) =~~= views_of(out@)
                        + lines_spec(s@.skip(n as int)));
                }
                pos = n;
            },
        }
    }
    proof {
        assert(s@.skip(pos as int) =~= Seq::<char>::empty());
        assert(views_of(out@) + lines_spec(s@.skip(pos as int)) =~~= views_of(out@));
    }
    out
}

/// Splits `s` at `sep` into at most `n` pieces, as `str::splitn` does.
pub fn splitn_str(s: &str, sep: char, n: usize) -> (r: Vec<String>)
    requires
        n >= 1,
    ensures
        views_of(r@) == splitn_spec(s@, sep, n as nat),
        1 <= r@.len() <= n,
{
    let slen = s.unicode_len();
    let mut out: Vec<String> = Vec::new();
    let mut pos: usize = 0;
    proof {
        assert(s@.skip(0) =~= s@);
        assert(views_of(out@) + splitn_spec(s@, sep, n as nat) =~~= splitn_spec(
            s@,
            sep,
            n as nat,
        ));
    }
    loop
        invariant
            slen == s@.len(),
            pos <= slen,
            out@.len() < n,
            splitn_spec(s@, sep, n as nat) == views_of(out@) + splitn_spec(
                s@.skip(pos as int),
                sep,
                (n - out@.len()) as nat,
            ),
        decreases n - out@.len(),
    {
        let ghost prev = out@;
        let remaining = n - out.len();
        if remaining >= 2 {
            match find_char_from(s, slen, pos, sep) {
                Some(i) => {
                    out.push(s.substring_char(pos, i).to_owned());
                    proof {
                        let t = s@.skip(pos as int);
                        assert(t[i - pos] == s@[i as int]);
                        assert forall|k: int| 0 <= k < i - pos implies t[k] != sep by {
                            assert(t[k] == s@[k + pos]);
                        }
                        lemma_index_of_char_at(t, sep, i - pos as int);
                        assert(t.take(i - pos) =~= s@.subrange(pos as int, i as int));
                        assert(t.skip(i - pos + 1) =~= s@.skip(i + 1));
                        assert(views_of(out@) =~~= views_of(prev) + seq![
                            s@.subrange(pos as int, i as int),
                        ]);
                        assert(views_of(prev) + splitn_spec(t, sep, remaining as nat)
                            =~~= views_of(out@) + splitn_spec(
                            s@.skip(i + 1),
                            sep,
                            (remaining - 1) as nat,
                        ));
                    }
                    pos = i + 1;
                },
                None => {
                    out.push(s.substring_char(pos, slen).to_owned());
                    proof {
                        let t = s@.skip(pos as int);
                        assert forall|k: int| 0 <= k < t.len() implies t[k] != sep by {
                            assert(t[k] == s@[k + pos]);
                        }
                        lemma_index_of_char_none(t, sep);
                        assert(t =~= s@.subrange(pos as int, slen as int));
                        assert(views_of(out@) =~~= views_of(prev) + seq![t]);
                        assert(views_of(prev) + splitn_spec(t, sep, remaining as nat)
                            =~~= views_of(out@));
                    }
                    return out;
                },
            }
        } else {
            out.push(s.substring_char(pos, slen).to_owned());
            proof {
                let t = s@.skip(pos as int);
                assert(t =~= s@.subrange(pos as int, slen as int));
                assert(views_of(out@) =~~= views_of(prev) + seq![t]);
                assert(views_of(prev) + splitn_spec(t, sep, remaining as nat) =~~= views_of(
                    out@,
                ));
            }
            return out;
        }
    }
}

/// `s` with every non-overlapping occurrence of `pat`, found left to
/// right, replaced by `rep`; an empty pattern replaces nothing.
pub open spec fn replace_spec(s: Seq<char>, pat: Seq<char>, rep: Seq<char>) -> Seq<char>
    decreases s.len(),
{
    if pat.len() == 0 || s.len() < pat.len() {
        s
    } else if starts_with_seq(s, pat) {
        rep + replace_spec(s.skip(pat.len() as int), pat, rep)
    } else {
        seq![s[0]] + replace_spec(s.drop_first(), pat, rep)
    }
}

/// Whether `pat` occurs in `s` at position `pos`.
fn matches_at(s: &str, n: usize, pos: usize, pat: &str, m: usize) -> (r: bool)
    requires
        n == s@.len(),
        m == pat@.len(),
        pos <= n,
    ensures
        r == starts_with_seq(s@.skip(pos as int), pat@),
{
    if m > n - pos {
        return false;
    }
    let mut j: usize = 0;
    while j < m
        invariant
            n == s@.len(),
            m == pat@.len(),
            pos + m <= n,
            j <= m,
            forall|l: int| 0 <= l < j ==> s@[pos + l] == pat@[l],
        decreases m - j,
    {
        if s.get_char(pos + j) != pat.get_char(j) {
            assert(s@.skip(pos as int).subrange(0, m as int)[j as int] != pat@[j as int]);
            return false;
        }
        j += 1;
    }
    assert forall|l: int| 0 <= l < m implies s@.skip(pos as int)[l] == pat@[l] by {
        assert(s@.skip(pos as int)[l] == s@[pos + l]);
    }
    assert(s@.skip(pos as int).subrange(0, m as int) =~= pat@);
    true
}

/// Replaces every occurrence of `pat` in `s` by `rep`, as
/// `str::replace` does.
pub fn replace_str(s: &str, pat: &str, rep: &str) -> (r: String)
    ensures
        r@ == replace_spec(s@, pat@, rep@),
{
    let n = s.unicode_len();
    let m = pat.unicode_len();
    if m == 0 {
        return s.to_owned();
    }
    let mut out = String::new();
    let mut pos: usize = 0;
    proof {
        assert(s@.skip(0) =~= s@);
    }
    while pos < n
        invariant
            n == s@.len(),
            m == pat@.len(),
            m >= 1,
            pos <= n,
            replace_spec(s@, pat@, rep@) == out@ + replace_spec(s@.skip(pos as int), pat@, rep@),
        decreases n - pos,
    {
        let ghost prev = out@;
        if matches_at(s, n, pos, pat, m) {
            out.append(rep);
            proof {
                assert(s@.skip(pos as int).skip(m as int) =~= s@.skip(pos + m));
                assert(prev + (rep@ + replace_spec(s@.skip(pos + m), pat@, rep@)) =~= out@
                    + replace_spec(s@.skip(pos + m), pat@, rep@));
            }
            pos += m;
        } else {
            out.append(s.substring_char(pos, pos + 1));
            proof {
                let u = s@.skip(pos as int);
                assert(u[0] == s@[pos as int]);
                assert(s@.subrange(pos as int, pos + 1) =~= seq![s@[pos as int]]);
                if u.len() < m as int {
                    assert(replace_spec(u, pat@, rep@) == u);
                    assert(replace_spec(s@.skip(pos + 1), pat@, rep@) == s@.skip(pos + 1));
                    assert(seq![s@[pos as int]] + s@.skip(pos + 1) =~= u);
                    assert(prev + u =~= out@ + s@.skip(pos + 1));
                } else {
                    assert(u.drop_first() =~= s@.skip(pos + 1));
                    assert(prev + (seq![u[0]] + replace_spec(s@.skip(pos + 1), pat@, rep@))
                        =~= out@ + replace_spec(s@.skip(pos + 1), pat@, rep@));
                }
            }
            pos += 1;
        }
    }
    proof {
        assert(s@.skip(pos as int) =~= Seq::<char>::empty());
        assert(out@ + Seq::<char>::empty() =~= out@);
    }
    out
}

/// Index of the first whitespace character in `s`, if any.
pub open spec fn index_of_ws(s: Seq<char>) -> Option<int>
    decreases s.len(),
{
    if s.len() == 0 {
        None
    } else if is_space_char(s[0]) {
        Some(0)
    } else {
        match index_of_ws(s.drop_first()) {
            Some(i) => Some(i + 1),
            None => None,
        }
    }
}

proof fn lemma_index_of_ws(s: Seq<char>)
    ensures
        match index_of_ws(s) {
            Some(i) => 0 <= i < s.len() && is_space_char(s[i]) && forall|k: int|
                0 <= k < i ==> !is_space_char(s[k]),
            None => forall|k: int| 0 <= k < s.len() ==> !is_space_char(s[k]),
        },
    decreases s.len(),
{
    if s.len() > 0 && !is_space_char(s[0]) {
        lemma_index_of_ws(s.drop_first());
        match index_of_ws(s.drop_first()) {
            Some(i) => {
                assert(s[i + 1] == s.drop_first()[i]);
                assert forall|k: int| 0 <= k < i + 1 implies !is_space_char(s[k]) by {
                    if k >= 1 {
                        assert(s.drop_first()[k - 1] == s[k]);
                    }
                }
            },
            None => {
                assert forall|k: int| 0 <= k < s.len() implies !is_space_char(s[k]) by {
                    if k >= 1 {
                        assert(s.drop_first()[k - 1] == s[k]);
                    }
                }
            },
        }
    }
}

proof fn lemma_index_of_ws_at(s: Seq<char>, i: int)
    requires
        0 <= i < s.len(),
        is_space_char(s[i]),
        forall|k: int| 0 <= k < i ==> !is_space_char(s[k]),
    ensures
        index_of_ws(s) == Some(i),
    decreases s.len(),
{
    if i > 0 {
        assert forall|k: int| 0 <= k < i - 1 implies !is_space_char(s.drop_first()[k]) by {
            assert(s.drop_first()[k] == s[k + 1]);
        }
        assert(s.drop_first()[i - 1] == s[i]);
        lemma_index_of_ws_at(s.drop_first(), i - 1);
    }
}

proof fn lemma_index_of_ws_none(s: Seq<char>)
    requires
        forall|k: int| 0 <= k < s.len() ==> !is_space_char(s[k]),
    ensures
        index_of_ws(s) == None::<int>,
    decreases s.len(),
{
    if s.len() > 0 {
        assert forall|k: int| 0 <= k < s.drop_first().len() implies !is_space_char(
            s.drop_first()[k],
        ) by {
            assert(s.drop_first()[k] == s[k + 1]);
        }
        lemma_index_of_ws_none(s.drop_first());
    }
}

/// The whitespace-separated words of `s`, in order, without empties.
pub open spec fn split_ws_spec(s: Seq<char>) -> Seq<Seq<char>>
    decreases s.len(),
    via split_ws_spec_decreases
{
    if s.len() == 0 {
        Seq::empty()
    } else if is_space_char(s[0]) {
        split_ws_spec(s.drop_first())
    } else {
        match index_of_ws(s) {
            Some(e) => seq![s.take(e)] + split_ws_spec(s.skip(e)),
            None => seq![s],
        }
    }
}

#[via_fn]
proof fn split_ws_spec_decreases(s: Seq<char>) {
    lemma_index_of_ws(s);
}

/// First whitespace index at or after `start`, if any.
fn find_ws_from(s: &str, n: usize, start: usize) -> (r: Option<usize>)
    requires
        n == s@.len(),
        start <= n,
    ensures
        match r {
            Some(i) => start <= i < n && is_space_char(s@[i as int]) && forall|k: int|
                start <= k < i ==> !is_space_char(s@[k]),
            None => forall|k: int| start <= k < n ==> !is_space_char(s@[k]),
        },
{
    let mut i = start;
    while i < n
        invariant
            n == s@.len(),
            start <= i <= n,
            forall|k: int| start <= k < i ==> !is_space_char(s@[k]),
        decreases n - i,
    {
        if is_space(s.get_char(i)) {
            return Some(i);
        }
        i += 1;
    }
    None
}

/// Splits `s` into whitespace-separated words, as `str::split_whitespace`
/// does for ASCII whitespace.
pub fn split_ws_str(s: &str) -> (r: Vec<String>)
    ensures
        views_of(r@) == split_ws_spec(s@),
{
    let n = s.unicode_len();
    let mut out: Vec<String> = Vec::new();
    let mut pos: usize = 0;
    proof {
        assert(s@.skip(0) =~= s@);
        assert(views_of(out@) + split_ws_spec(s@) =~~= split_ws_spec(s@));
    }
    while pos < n
        invariant
            n == s@.len(),
            pos <= n,
            split_ws_spec(s@) == views_of(out@) + split_ws_spec(s@.skip(pos as int)),
        decreases n - pos,
    {
        let ghost prev = out@;
        if is_space(s.get_char(pos)) {
            proof {
                let t = s@.skip(pos as int);
                assert(t[0] == s@[pos as int]);
                assert(t.drop_first() =~= s@.skip(pos + 1));
            }
            pos += 1;
        } else {
            let e = match find_ws_from(s, n, pos) {
                Some(e) => e,
                None => n,
            };
            out.push(s.substring_char(pos, e).to_owned());
            proof {
                let t = s@.skip(pos as int);
                assert(t[0] == s@[pos as int]);
                assert forall|k: int| 0 <= k < e - pos implies !is_space_char(t[k]) by {
                    assert(t[k] == s@[k + pos]);
                }
                if e < n {
                    assert(t[e - pos] == s@[e as int]);
                    lemma_index_of_ws_at(t, e - pos as int);
                    assert(t.take(e - pos) =~= s@.subrange(pos as int, e as int));
                    assert(t.skip(e - pos) =~= s@.skip(e as int));
                    assert(views_of(out@) =~~= views_of(prev) + seq![
                        s@.subrange(pos as int, e as int),
                    ]);
                    assert(views_of(prev) + split_ws_spec(t) =~~= views_of(out@) + split_ws_spec(
                        s@.skip(e as int),
                    ));
                } else {
                    lemma_index_of_ws_none(t);
                    assert(t =~= s@.subrange(pos as int, n as int));
                    assert(views_of(out@) =~~= views_of(prev) + seq![t]);
                    assert(s@.skip(n as int) =~= Seq::<char>::empty());
                    assert(views_of(prev) + split_ws_spec(t) =~~= views_of(out@) + split_ws_spec(
                        s@.skip(n as int),
                    ));
                }
            }
            pos = e;
        }
    }
    proof {
        assert(s@.skip(pos as int) =~= Seq::<char>::empty());
        assert(views_of(out@) + split_ws_spec(s@.skip(pos as int)) =~~= views_of(out@));
    }
    out
}

} // verus!
