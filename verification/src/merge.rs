//! The result merger: concatenates the two environments' project
//! lists, native first, and imposes the final deterministic order — a
//! stable descending sort by `last_opened`.  No deduplication: the two
//! environments are disjoint namespaces, so a name seen in both yields
//! two entries.

use vstd::prelude::*;
use crate::model::Project;

verus! {

/// Descending order by `last_opened`.
pub open spec fn sorted_desc(s: Seq<Project>) -> bool {
    forall|i: int, j: int| 0 <= i < j < s.len() ==> s[i].last_opened >= s[j].last_opened
}

/// Stable insertion into a descending list: `p` goes after every
/// element at least as recent, before the first strictly older one.
pub open spec fn insert_desc(s: Seq<Project>, p: Project) -> Seq<Project>
    decreases s.len(),
{
    if s.len() == 0 {
        seq![p]
    } else if s[0].last_opened >= p.last_opened {
        seq![s[0]] + insert_desc(s.drop_first(), p)
    } else {
        seq![p] + s
    }
}

/// Stable descending insertion sort by `last_opened`.
pub open spec fn sort_desc(s: Seq<Project>) -> Seq<Project>
    decreases s.len(),
{
    if s.len() == 0 {
        Seq::empty()
    } else {
        insert_desc(sort_desc(s.drop_last()), s.last())
    }
}

/// The elements whose `last_opened` is `k`, in order.
pub open spec fn filter_key(s: Seq<Project>, k: u64) -> Seq<Project>
    decreases s.len(),
{
    if s.len() == 0 {
        Seq::empty()
    } else if s[0].last_opened == k {
        seq![s[0]] + filter_key(s.drop_first(), k)
    } else {
        filter_key(s.drop_first(), k)
    }
}

proof fn lemma_insert_sorted(s: Seq<Project>, p: Project)
    requires
        sorted_desc(s),
    ensures
        sorted_desc(insert_desc(s, p)),
        insert_desc(s, p).len() == s.len() + 1,
        forall|i: int| 0 <= i < insert_desc(s, p).len() ==> insert_desc(s, p)[i] == p || exists|
            j: int,
        | 0 <= j < s.len() && insert_desc(s, p)[i] == s[j] && (#[trigger] insert_desc(s, p)[i]).last_opened == s[j].last_opened,
    decreases s.len(),
{
    if s.len() == 0 {
    } else if s[0].last_opened >= p.last_opened {
        assert forall|i: int, j: int| 0 <= i < j < s.drop_first().len() implies s.drop_first()[i].last_opened
            >= s.drop_first()[j].last_opened by {
            assert(s.drop_first()[i] == s[i + 1]);
            assert(s.drop_first()[j] == s[j + 1]);
        }
        lemma_insert_sorted(s.drop_first(), p);
        let r = insert_desc(s, p);
        let t = insert_desc(s.drop_first(), p);
        assert forall|i: int, j: int| 0 <= i < j < r.len() implies r[i].last_opened
            >= r[j].last_opened by {
            if i == 0 {
                // r[0] == s[0]; every element of t is p or keeps the key
                // of some element of s.drop_first(), both at most s[0]'s.
                assert(r[j] == t[j - 1]);
                if t[j - 1] == p {
                } else {
                    let ghost w = choose|w: int|
                        0 <= w < s.drop_first().len() && t[j - 1] == s.drop_first()[w] && t[j
                            - 1].last_opened == s.drop_first()[w].last_opened;
                    assert(s.drop_first()[w] == s[w + 1]);
                }
            } else {
                assert(r[i] == t[i - 1]);
                assert(r[j] == t[j - 1]);
            }
        }
    } else {
    }
}

/// What the merger promises of its order: the sort of any list is
/// descending by `last_opened`.
pub proof fn lemma_sort_sorted(s: Seq<Project>)
    ensures
        sorted_desc(sort_desc(s)),
        sort_desc(s).len() == s.len(),
    decreases s.len(),
{
    if s.len() > 0 {
        lemma_sort_sorted(s.drop_last());
        lemma_insert_sorted(sort_desc(s.drop_last()), s.last());
    }
}

proof fn lemma_filter_key_snoc(s: Seq<Project>, p: Project, k: u64)
    ensures
        filter_key(s.push(p), k) == if p.last_opened == k {
            filter_key(s, k).push(p)
        } else {
            filter_key(s, k)
        },
    decreases s.len(),
{
    if s.len() == 0 {
        assert(s.push(p)[0] == p);
        assert(s.push(p).drop_first() =~= Seq::<Project>::empty());
        assert(filter_key(Seq::<Project>::empty(), k) =~= Seq::<Project>::empty());
        if p.last_opened == k {
            assert(filter_key(s.push(p), k) =~= filter_key(s, k).push(p));
        } else {
            assert(filter_key(s.push(p), k) =~= filter_key(s, k));
        }
    } else {
        assert(s.push(p)[0] == s[0]);
        assert(s.push(p).drop_first() =~= s.drop_first().push(p));
        lemma_filter_key_snoc(s.drop_first(), p, k);
        if s[0].last_opened == k {
            if p.last_opened == k {
                assert(filter_key(s.push(p), k) =~= filter_key(s, k).push(p));
            } else {
                assert(filter_key(s.push(p), k) =~= filter_key(s, k));
            }
        }
    }
}

proof fn lemma_insert_filter(s: Seq<Project>, p: Project, k: u64)
    requires
        sorted_desc(s),
    ensures
        filter_key(insert_desc(s, p), k) == if p.last_opened == k {
            filter_key(s, k).push(p)
        } else {
            filter_key(s, k)
        },
    decreases s.len(),
{
    if s.len() == 0 {
        assert(insert_desc(s, p) =~= seq![p]);
        assert(seq![p].drop_first() =~= Seq::<Project>::empty());
        assert(filter_key(Seq::<Project>::empty(), k) =~= Seq::<Project>::empty());
        if p.last_opened == k {
            assert(filter_key(insert_desc(s, p), k) =~= filter_key(s, k).push(p));
        } else {
            assert(filter_key(insert_desc(s, p), k) =~= filter_key(s, k));
        }
    } else if s[0].last_opened >= p.last_opened {
        let r = insert_desc(s, p);
        assert(r[0] == s[0]);
        assert(r.drop_first() =~= insert_desc(s.drop_first(), p));
        assert forall|i: int, j: int| 0 <= i < j < s.drop_first().len() implies s.drop_first()[i].last_opened
            >= s.drop_first()[j].last_opened by {
            assert(s.drop_first()[i] == s[i + 1]);
            assert(s.drop_first()[j] == s[j + 1]);
        }
        lemma_insert_filter(s.drop_first(), p, k);
        if s[0].last_opened == k && p.last_opened == k {
            assert(filter_key(r, k) =~= filter_key(s, k).push(p));
        }
    } else {
        // p stands in front; everything in s is strictly older than p,
        // so for p's own key nothing of s is filtered in before it.
        let r = insert_desc(s, p);
        assert(r =~= seq![p] + s);
        assert(r[0] == p);
        assert(r.drop_first() =~= s);
        if p.last_opened == k {
            // s[0] is strictly older than p, and s is sorted, so no
            // element of s carries p's key.
            lemma_filter_key_empty(s, k);
            assert(filter_key(r, k) =~= seq![p]);
            assert(filter_key(s, k).push(p) =~= seq![p]);
        }
    }
}

proof fn lemma_filter_key_empty(s: Seq<Project>, k: u64)
    requires
        forall|i: int| 0 <= i < s.len() ==> s[i].last_opened != k,
    ensures
        filter_key(s, k) == Seq::<Project>::empty(),
    decreases s.len(),
{
    if s.len() > 0 {
        assert forall|i: int| 0 <= i < s.drop_first().len() implies s.drop_first()[i].last_opened
            != k by {
            assert(s.drop_first()[i] == s[i + 1]);
        }
        lemma_filter_key_empty(s.drop_first(), k);
    }
}

/// What the merger promises of stability: sorting never reorders,
/// drops or invents entries within one `last_opened` value — for every
/// key, the entries carrying it come out exactly as they went in.
pub proof fn lemma_sort_stable(s: Seq<Project>, k: u64)
    ensures
        filter_key(sort_desc(s), k) == filter_key(s, k),
    decreases s.len(),
{
    if s.len() > 0 {
        lemma_sort_stable(s.drop_last(), k);
        lemma_sort_sorted(s.drop_last());
        lemma_insert_filter(sort_desc(s.drop_last()), s.last(), k);
        assert(s =~= s.drop_last().push(s.last()));
        lemma_filter_key_snoc(s.drop_last(), s.last(), k);
    }
}

proof fn lemma_insert_at_end(s: Seq<Project>, p: Project)
    requires
        forall|i: int| 0 <= i < s.len() ==> s[i].last_opened >= p.last_opened,
    ensures
        insert_desc(s, p) == s.push(p),
    decreases s.len(),
{
    if s.len() == 0 {
        assert(insert_desc(s, p) =~= s.push(p));
    } else {
        assert forall|i: int| 0 <= i < s.drop_first().len() implies s.drop_first()[i].last_opened
            >= p.last_opened by {
            assert(s.drop_first()[i] == s[i + 1]);
        }
        lemma_insert_at_end(s.drop_first(), p);
        assert(insert_desc(s, p) =~= s.push(p));
    }
}

/// A list already in the merger's order is left exactly as it is.
pub proof fn lemma_sort_of_sorted(s: Seq<Project>)
    requires
        sorted_desc(s),
    ensures
        sort_desc(s) == s,
    decreases s.len(),
{
    if s.len() > 0 {
        assert forall|i: int, j: int| 0 <= i < j < s.drop_last().len() implies s.drop_last()[i].last_opened
            >= s.drop_last()[j].last_opened by {
            assert(s.drop_last()[i] == s[i]);
            assert(s.drop_last()[j] == s[j]);
        }
        lemma_sort_of_sorted(s.drop_last());
        assert forall|i: int| 0 <= i < s.drop_last().len() implies s.drop_last()[i].last_opened
            >= s.last().last_opened by {
            assert(s.drop_last()[i] == s[i]);
        }
        lemma_insert_at_end(s.drop_last(), s.last());
        assert(s.drop_last().push(s.last()) =~= s);
    }
}

/// Re-running the merge order on its own output changes nothing:
/// the sort is idempotent.
pub proof fn lemma_sort_idempotent(s: Seq<Project>)
    ensures
        sort_desc(sort_desc(s)) == sort_desc(s),
{
    lemma_sort_sorted(s);
    lemma_sort_of_sorted(sort_desc(s));
}

/// An unreachable bridged environment contributes nothing: merging
/// the native list with an empty bridged list orders the native list
/// alone.
pub proof fn lemma_merge_empty_bridged(native: Seq<Project>)
    ensures
        sort_desc(native + Seq::<Project>::empty()) == sort_desc(native),
{
    assert(native + Seq::<Project>::empty() =~= native);
}

proof fn lemma_insert_desc_at(s: Seq<Project>, p: Project, j: int)
    requires
        sorted_desc(s),
        0 <= j <= s.len(),
        forall|i: int| 0 <= i < j ==> s[i].last_opened >= p.last_opened,
        j < s.len() ==> s[j].last_opened < p.last_opened,
    ensures
        insert_desc(s, p) == s.take(j) + seq![p] + s.skip(j),
    decreases j,
{
    if j == 0 {
        if s.len() == 0 {
            assert(insert_desc(s, p) =~= s.take(0) + seq![p] + s.skip(0));
        } else {
            assert(insert_desc(s, p) =~= s.take(0) + seq![p] + s.skip(0));
        }
    } else {
        assert(s[0].last_opened >= p.last_opened);
        assert forall|a: int, b: int| 0 <= a < b < s.drop_first().len() implies s.drop_first()[a].last_opened
            >= s.drop_first()[b].last_opened by {
            assert(s.drop_first()[a] == s[a + 1]);
            assert(s.drop_first()[b] == s[b + 1]);
        }
        assert forall|i: int| 0 <= i < j - 1 implies s.drop_first()[i].last_opened
            >= p.last_opened by {
            assert(s.drop_first()[i] == s[i + 1]);
        }
        assert(j - 1 < s.drop_first().len() ==> s.drop_first()[j - 1] == s[j as int]);
        lemma_insert_desc_at(s.drop_first(), p, j - 1);
        assert(insert_desc(s, p) =~= s.take(j) + seq![p] + s.skip(j));
    }
}

/// Inserts one record into an already-ordered vector, after every
/// entry at least as recent.
fn insert_project(out: &mut Vec<Project>, p: Project)
    requires
        sorted_desc(old(out)@),
    ensures
        final(out)@ == insert_desc(old(out)@, p),
{
    let mut j: usize = 0;
    while j < out.len() && out[j].last_opened >= p.last_opened
        invariant
            j <= out@.len(),
            forall|i: int| 0 <= i < j ==> out@[i].last_opened >= p.last_opened,
        decreases out@.len() - j,
    {
        j += 1;
    }
    proof {
        lemma_insert_desc_at(out@, p, j as int);
    }
    out.insert(j, p);
    proof {
        assert(out@ =~= old(out)@.take(j as int) + seq![p] + old(out)@.skip(j as int));
    }
}

/// Sorts a project list into the merger's order: a stable descending
/// sort by `last_opened`.
pub fn sort_projects(projects: Vec<Project>) -> (r: Vec<Project>)
    ensures
        r@ == sort_desc(projects@),
{
    let mut rest = projects;
    let ghost orig = rest@;
    let mut out: Vec<Project> = Vec::new();
    let mut i: usize = 0;
    let _total: usize = rest.len();
    proof {
        assert(rest@ =~= orig.skip(0));
        assert(orig.take(0) =~= Seq::<Project>::empty());
    }
    while rest.len() > 0
        invariant
            orig.len() <= usize::MAX,
            i + rest@.len() == orig.len(),
            rest@ == orig.skip(i as int),
            out@ == sort_desc(orig.take(i as int)),
        decreases rest@.len(),
    {
        let p = rest.remove(0);
        proof {
            assert(p == orig[i as int]);
            assert(rest@ =~= orig.skip(i + 1));
            lemma_sort_sorted(orig.take(i as int));
            assert(orig.take(i + 1).drop_last() =~= orig.take(i as int));
            assert(orig.take(i + 1).last() == orig[i as int]);
        }
        insert_project(&mut out, p);
        i += 1;
    }
    proof {
        assert(orig.take(orig.len() as int) =~= orig);
    }
    out
}

/// Merges the two environments' lists: native first, then bridged,
/// then the deterministic final order.
pub fn merge_projects(native: Vec<Project>, bridged: Vec<Project>) -> (r: Vec<Project>)
    ensures
        r@ == sort_desc(native@ + bridged@),
{
    let mut all = native;
    let mut bridged = bridged;
    all.append(&mut bridged);
    sort_projects(all)
}

} // verus!
