//! Directory-scanner support: builds fresh project records from what
//! the two enumeration strategies saw, and joins probe results back to
//! their projects.

use vstd::prelude::*;
use crate::model::{CommandOutcome, GitStatus, Project};
use crate::text::{lines_spec, split_lines, trim_spec, trim_str, views_of};

verus! {

/// A record fresh from the native scanner: modification time when the
/// metadata read succeeded, 0 otherwise; no status yet; never pinned
/// at creation.
pub fn make_native_project(name: &str, path: &str, modified: Option<u64>) -> (r: Project)
    ensures
        r.name@ == name@,
        r.path@ == path@,
        r.last_opened == modified.unwrap_or(0),
        r.git_status is None,
        !r.is_pinned,
{
    Project {
        name: name.to_owned(),
        path: path.to_owned(),
        last_opened: match modified {
            Some(t) => t,
            None => 0,
        },
        git_status: None,
        is_pinned: false,
    }
}

/// The project names a bridged listing stands for: one per line,
/// trimmed, empty lines skipped.
pub open spec fn bridged_names_spec(ls: Seq<Seq<char>>) -> Seq<Seq<char>>
    decreases ls.len(),
{
    if ls.len() == 0 {
        Seq::empty()
    } else {
        let rest = bridged_names_spec(ls.drop_last());
        if trim_spec(ls.last()).len() > 0 {
            rest.push(trim_spec(ls.last()))
        } else {
            rest
        }
    }
}

/// What one bridged project record holds: the listed name, a path
/// joined under the bridged root, no reliable modification time, no
/// status yet, never pinned.
pub open spec fn bridged_project_matches(p: Project, root: Seq<char>, name: Seq<char>) -> bool {
    &&& p.name@ == name
    &&& p.path@ == root + "/"@ + name
    &&& p.last_opened == 0
    &&& p.git_status is None
    &&& !p.is_pinned
}

/// Builds the bridged environment's project records out of its listing
/// command's outcome.  An unreachable bridge or a failed listing —
/// `None`, or an unsuccessful exit — degrades to an empty list and
/// never fails the scan.
pub fn parse_bridged_listing(root: &str, outcome: Option<&CommandOutcome>) -> (r: Vec<Project>)
    ensures
        match outcome {
            Some(o) => if o.exit_succeeded {
                {
                    let names = bridged_names_spec(lines_spec(o.stdout@));
                    &&& r@.len() == names.len()
                    &&& forall|j: int| 0 <= j < r@.len() ==> bridged_project_matches(
                        #[trigger] r@[j],
                        root@,
                        names[j],
                    )
                }
            } else {
                r@.len() == 0
            },
            None => r@.len() == 0,
        },
{
    let mut out: Vec<Project> = Vec::new();
    let o = match outcome {
        Some(o) => o,
        None => {
            return out;
        },
    };
    if !o.exit_succeeded {
        return out;
    }
    let ls = split_lines(o.stdout.as_str());
    let mut i: usize = 0;
    while i < ls.len()
        invariant
            i <= ls@.len(),
            out@.len() == bridged_names_spec(views_of(ls@).take(i as int)).len(),
            forall|j: int| 0 <= j < out@.len() ==> bridged_project_matches(
                #[trigger] out@[j],
                root@,
                bridged_names_spec(views_of(ls@).take(i as int))[j],
            ),
        decreases ls@.len() - i,
    {
        proof {
            assert(views_of(ls@).take(i + 1).drop_last() =~= views_of(ls@).take(i as int));
            assert(views_of(ls@).take(i + 1).last() == ls@[i as int]@);
        }
        let name = trim_str(ls[i].as_str());
        if !name.as_str().is_empty() {
            let path = root.to_owned().concat("/").concat(name.as_str());
            out.push(
                Project {
                    name,
                    path,
                    last_opened: 0,
                    git_status: None,
                    is_pinned: false,
                },
            );
        }
        i += 1;
    }
    proof {
        assert(views_of(ls@).take(ls@.len() as int) =~= views_of(ls@));
    }
    out
}

/// Whether two records agree on everything but the status.
pub open spec fn same_but_status(a: Project, b: Project) -> bool {
    &&& a.name@ == b.name@
    &&& a.path@ == b.path@
    &&& a.last_opened == b.last_opened
    &&& a.is_pinned == b.is_pinned
}

/// Joins one probe result back to its project: the status is present
/// exactly when the probe reported a repository, and nothing else of
/// the record changes.  A failed probe reads as no repository and
/// never fails the aggregate.
pub fn attach_status(project: Project, probe: Option<GitStatus>) -> (r: Project)
    ensures
        same_but_status(r, project),
        r.git_status == probe,
{
    Project { git_status: probe, ..project }
}

/// Joins the probe results of a whole scan back to their projects, in
/// order: each record keeps its identity and carries its own probe's
/// status, present exactly where the probe found a repository.
pub fn attach_statuses(projects: Vec<Project>, probes: Vec<Option<GitStatus>>) -> (r: Vec<
    Project,
>)
    requires
        projects@.len() == probes@.len(),
    ensures
        r@.len() == projects@.len(),
        forall|j: int| 0 <= j < r@.len() ==> same_but_status(#[trigger] r@[j], projects@[j])
            && r@[j].git_status == probes@[j],
{
    let mut out: Vec<Project> = Vec::new();
    let mut rest = projects;
    let mut probe_rest = probes;
    let ghost orig = rest@;
    let ghost all_probes = probe_rest@;
    let mut i: usize = 0;
    let _total: usize = rest.len();
    proof {
        assert(rest@ =~= orig.skip(0));
        assert(probe_rest@ =~= all_probes.skip(0));
    }
    while rest.len() > 0
        invariant
            orig.len() == all_probes.len(),
            orig.len() <= usize::MAX,
            i == out@.len(),
            i + rest@.len() == orig.len(),
            rest@ == orig.skip(i as int),
            probe_rest@ == all_probes.skip(i as int),
            forall|j: int| 0 <= j < i ==> same_but_status(#[trigger] out@[j], orig[j])
                && out@[j].git_status == all_probes[j],
        decreases rest@.len(),
    {
        let p = rest.remove(0);
        let probe = probe_rest.remove(0);
        proof {
            assert(p == orig[i as int]);
            assert(probe == all_probes[i as int]);
            assert(rest@ =~= orig.skip(i + 1));
            assert(probe_rest@ =~= all_probes.skip(i + 1));
        }
        out.push(attach_status(p, probe));
        i += 1;
    }
    out
}

} // verus!
