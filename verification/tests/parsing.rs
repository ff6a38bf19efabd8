use ketra_core::model::CommandOutcome;
use ketra_core::ops::{interpret_branches, interpret_history};
use ketra_core::parse::{parse_branches, parse_commit_log, repo_name_from_url};
use ketra_core::status::{build_git_status, parse_ahead_behind};
use ketra_core::model::Environment;

fn ok_outcome(stdout: &str) -> CommandOutcome {
    CommandOutcome {
        exit_succeeded: true,
        stdout: stdout.to_string(),
        stderr: String::new(),
    }
}

#[test]
fn branches_strip_markers_and_remote_prefixes() {
    let raw = "* main\n  develop\n  remotes/origin/feature-x\n";
    assert_eq!(parse_branches(raw), vec!["main", "develop", "feature-x"]);
}

#[test]
fn branches_exclude_head_pointer_line() {
    let raw = "* main\n  remotes/origin/HEAD -> origin/main\n  remotes/origin/main\n";
    let branches = parse_branches(raw);
    assert_eq!(branches, vec!["main", "main"]);
    assert!(branches.iter().all(|b| !b.contains("HEAD ->")));
}

#[test]
fn branches_skip_empty_lines() {
    assert_eq!(parse_branches("\n\n  dev\n\n"), vec!["dev"]);
    assert_eq!(parse_branches(""), Vec::<String>::new());
}

#[test]
fn interpret_branches_failure_message() {
    let o = CommandOutcome {
        exit_succeeded: false,
        stdout: String::new(),
        stderr: "boom".to_string(),
    };
    assert_eq!(interpret_branches(&o), Err("Failed to get branches".to_string()));
}

#[test]
fn commit_history_three_full_records() {
    let raw = "abc123|Ada Lovelace|ada@example.com|1700000000|First note\n\
               def456|Grace Hopper|grace@example.com|1700000100|Second note\n\
               0123ab|Alan Turing|alan@example.com|1700000200|Third: with | pipes\n";
    let entries = parse_commit_log(raw);
    assert_eq!(entries.len(), 3);
    assert_eq!(entries[0].hash, "abc123");
    assert_eq!(entries[0].author, "Ada Lovelace");
    assert_eq!(entries[0].email, "ada@example.com");
    assert_eq!(entries[0].timestamp, 1700000000);
    assert_eq!(entries[0].message, "First note");
    // The fifth field keeps any further delimiters.
    assert_eq!(entries[2].message, "Third: with | pipes");
    // Every record has all five fields populated and a numeric time.
    for e in &entries {
        assert!(!e.hash.is_empty());
        assert!(!e.author.is_empty());
        assert!(!e.email.is_empty());
        assert!(e.timestamp > 0);
        assert!(!e.message.is_empty());
    }
}

#[test]
fn commit_history_drops_malformed_lines() {
    let raw = "abc|only|three|fields\nx|y|z|1|good\n";
    let entries = parse_commit_log(raw);
    assert_eq!(entries.len(), 1);
    assert_eq!(entries[0].hash, "x");
    assert_eq!(entries[0].timestamp, 1);
}

#[test]
fn commit_history_zeroes_unparsable_timestamp() {
    let entries = parse_commit_log("h|a|e|not-a-number|m\n");
    assert_eq!(entries.len(), 1);
    assert_eq!(entries[0].timestamp, 0);
}

#[test]
fn interpret_history_success_and_failure() {
    let ok = interpret_history(&ok_outcome("h|a|e|5|m")).unwrap();
    assert_eq!(ok.len(), 1);
    let failed = CommandOutcome {
        exit_succeeded: false,
        stdout: String::new(),
        stderr: String::new(),
    };
    assert_eq!(
        interpret_history(&failed).unwrap_err(),
        "Failed to get commit history".to_string()
    );
}

#[test]
fn repo_name_taken_from_clone_url() {
    assert_eq!(repo_name_from_url("https://github.com/someone/widget.git"), "widget");
    assert_eq!(repo_name_from_url("https://github.com/someone/widget"), "widget");
    assert_eq!(repo_name_from_url("widget.git"), "widget");
}

#[test]
fn ahead_behind_reads_two_fields() {
    assert_eq!(parse_ahead_behind("3\t5\n", Environment::Native), (3, 5));
    assert_eq!(parse_ahead_behind("0 0", Environment::Native), (0, 0));
    // A native probe insists on exactly two fields.
    assert_eq!(parse_ahead_behind("1 2 3", Environment::Native), (0, 0));
    // The bridged probe accepts two or more.
    assert_eq!(parse_ahead_behind("1 2 3", Environment::Bridged), (1, 2));
    assert_eq!(parse_ahead_behind("", Environment::Native), (0, 0));
    assert_eq!(parse_ahead_behind("garbage", Environment::Native), (0, 0));
}

#[test]
fn git_status_clean_iff_no_uncommitted_files() {
    let clean = build_git_status(Environment::Native, "main\n", "", "0\t0\n");
    assert!(clean.is_clean);
    assert_eq!(clean.uncommitted_files, 0);
    assert_eq!(clean.branch, "main");

    let dirty = build_git_status(Environment::Native, "dev\n", " M a.rs\n?? b.rs\n", "2\t1\n");
    assert!(!dirty.is_clean);
    assert_eq!(dirty.uncommitted_files, 2);
    assert_eq!(dirty.commits_ahead, 2);
    assert_eq!(dirty.commits_behind, 1);
    assert_eq!(dirty.is_clean, dirty.uncommitted_files == 0);
}

#[test]
fn bridged_status_counts_only_nonempty_lines() {
    // The bridged probe's shell fallback prints one empty line on
    // failure; that must not read as an uncommitted file.
    let st = build_git_status(Environment::Bridged, "main\n", "\n", "0 0\n");
    assert_eq!(st.uncommitted_files, 0);
    assert!(st.is_clean);
    // But a native probe counts raw lines.
    let st2 = build_git_status(Environment::Native, "main\n", "\n", "0 0\n");
    assert_eq!(st2.uncommitted_files, 1);
    assert!(!st2.is_clean);
}

#[test]
fn git_status_without_upstream_reads_zero_counts() {
    let st = build_git_status(Environment::Native, "main\n", "", "");
    assert_eq!((st.commits_ahead, st.commits_behind), (0, 0));
}
