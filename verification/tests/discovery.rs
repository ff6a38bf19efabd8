use ketra_core::merge::{merge_projects, sort_projects};
use ketra_core::model::{CommandOutcome, Environment, GitStatus, Project};
use ketra_core::scan::{attach_status, attach_statuses, make_native_project, parse_bridged_listing};
use ketra_core::status::build_git_status;

fn project(name: &str, last_opened: u64) -> Project {
    Project {
        name: name.to_string(),
        path: format!("/home/u/ketra/{}", name),
        last_opened,
        git_status: None,
        is_pinned: false,
    }
}

fn names(projects: &[Project]) -> Vec<&str> {
    projects.iter().map(|p| p.name.as_str()).collect()
}

#[test]
fn native_records_take_metadata_time_or_zero() {
    let p = make_native_project("proj", "C:\\u\\ketra\\proj", Some(1234));
    assert_eq!(p.name, "proj");
    assert_eq!(p.path, "C:\\u\\ketra\\proj");
    assert_eq!(p.last_opened, 1234);
    assert!(p.git_status.is_none());
    assert!(!p.is_pinned);
    let q = make_native_project("proj", "C:\\u\\ketra\\proj", None);
    assert_eq!(q.last_opened, 0);
}

#[test]
fn bridged_listing_builds_records_with_zero_time() {
    let o = CommandOutcome {
        exit_succeeded: true,
        stdout: "alpha\nbeta\n\n".to_string(),
        stderr: String::new(),
    };
    let ps = parse_bridged_listing("/home/u/ketra", Some(&o));
    assert_eq!(names(&ps), vec!["alpha", "beta"]);
    assert_eq!(ps[0].path, "/home/u/ketra/alpha");
    assert_eq!(ps[1].path, "/home/u/ketra/beta");
    assert!(ps.iter().all(|p| p.last_opened == 0));
    assert!(ps.iter().all(|p| p.git_status.is_none()));
}

#[test]
fn unreachable_bridge_degrades_to_empty_listing() {
    assert!(parse_bridged_listing("/home/u/ketra", None).is_empty());
    let failed = CommandOutcome {
        exit_succeeded: false,
        stdout: "noise".to_string(),
        stderr: "bridge down".to_string(),
    };
    assert!(parse_bridged_listing("/home/u/ketra", Some(&failed)).is_empty());
}

#[test]
fn bridged_unreachable_leaves_native_list_unchanged() {
    // A scan whose bridged side failed merges the native list with an
    // empty one: same entries, same relative order of equal times.
    let native = vec![project("n1", 30), project("n2", 20), project("n3", 20)];
    let merged = merge_projects(native.clone(), Vec::new());
    assert_eq!(names(&merged), names(&native));
}

#[test]
fn merge_sorts_descending_and_keeps_tie_order() {
    let native = vec![project("old", 10), project("new", 100), project("zero-a", 0)];
    let bridged = vec![project("zero-b", 0), project("mid", 50)];
    let merged = merge_projects(native, bridged);
    assert_eq!(names(&merged), vec!["new", "mid", "old", "zero-a", "zero-b"]);
    // Ties keep concatenation order: native zero-a before bridged zero-b.
    let times: Vec<u64> = merged.iter().map(|p| p.last_opened).collect();
    assert_eq!(times, vec![100, 50, 10, 0, 0]);
}

#[test]
fn merge_is_idempotent() {
    let native = vec![project("a", 5), project("b", 5), project("c", 9)];
    let bridged = vec![project("d", 5), project("e", 0)];
    let once = merge_projects(native, bridged);
    let twice = sort_projects(once.clone());
    assert_eq!(names(&twice), names(&once));
    let thrice = sort_projects(twice.clone());
    assert_eq!(names(&thrice), names(&once));
}

#[test]
fn probe_results_join_back_by_position() {
    let st = build_git_status(Environment::Native, "main\n", " M x\n", "1\t0\n");
    let p = attach_status(project("a", 7), Some(st.clone()));
    assert_eq!(p.name, "a");
    assert_eq!(p.last_opened, 7);
    let got = p.git_status.expect("status should be present");
    assert_eq!(got.branch, "main");
    assert_eq!(got.uncommitted_files, 1);
    assert_eq!(got.commits_ahead, 1);

    let q = attach_status(project("b", 8), None);
    assert!(q.git_status.is_none());
}

#[test]
fn statuses_attach_present_iff_probe_found_a_repository() {
    let ps = vec![project("a", 1), project("b", 2), project("c", 3)];
    let st = build_git_status(Environment::Bridged, "dev\n", "", "0 0\n");
    let probes = vec![Some(st), None, None];
    let joined = attach_statuses(ps, probes);
    assert!(joined[0].git_status.is_some());
    assert!(joined[1].git_status.is_none());
    assert!(joined[2].git_status.is_none());
    assert_eq!(names(&joined), vec!["a", "b", "c"]);
}

#[test]
fn every_built_status_is_well_formed() {
    let samples = [
        ("", "0\t0\n"),
        (" M f\n", "3\t1\n"),
        ("a\nb\nc\n", ""),
        ("\n", "x y\n"),
    ];
    for (status_out, rev_out) in samples {
        for env in [Environment::Native, Environment::Bridged] {
            let st: GitStatus = build_git_status(env, "main\n", status_out, rev_out);
            assert_eq!(st.is_clean, st.uncommitted_files == 0);
            assert!(st.commits_ahead >= 0);
            assert!(st.commits_behind >= 0);
            assert!(st.uncommitted_files >= 0);
        }
    }
}
