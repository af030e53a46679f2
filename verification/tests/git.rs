use git_monitor::git::log::page;
use git_monitor::git::branches::branch_list;
use git_monitor::git::diffstat::{commit_files, signature_status, DeltaKind, DiffEvent};
use git_monitor::git::log::{
    decoration_for_ref, has_uncommitted_changes, splice_remote_commits, staged_state_from_status,
    working_state_from_status, INDEX_MODIFIED, INDEX_NEW, WT_DELETED, WT_MODIFIED, WT_NEW,
};
use git_monitor::git::refs::RefIndex;
use git_monitor::git::status::{file_statuses, line_count, DiffLine, StatusEntry};
use git_monitor::git::time::{age_label_for, label_for};
use git_monitor::git::{
    format_relative_time, CommandType, FileState, FileStatus, GitCommand, GitStatus,
    RefDecoration,
};

fn make_file(path: &str, working: FileState, staged: FileState) -> FileStatus {
    FileStatus {
        path: path.to_string(),
        working,
        staged,
        working_insertions: 0,
        working_deletions: 0,
        staged_insertions: 0,
        staged_deletions: 0,
    }
}

#[test]
fn git_as_char_returns_correct_characters() {
    assert_eq!(FileState::Unmodified.as_char(), ' ');
    assert_eq!(FileState::Modified.as_char(), 'M');
    assert_eq!(FileState::Added.as_char(), 'A');
    assert_eq!(FileState::Deleted.as_char(), 'D');
    assert_eq!(FileState::Renamed.as_char(), 'R');
    assert_eq!(FileState::Untracked.as_char(), '?');
    assert_eq!(FileState::Ignored.as_char(), '!');
    assert_eq!(FileState::Conflicted.as_char(), 'U');
}

#[test]
fn git_is_changed_returns_false_for_unchanged_states() {
    assert!(!FileState::Unmodified.is_changed());
    assert!(!FileState::Ignored.is_changed());
}

#[test]
fn git_is_changed_returns_true_for_changed_states() {
    assert!(FileState::Modified.is_changed());
    assert!(FileState::Added.is_changed());
    assert!(FileState::Deleted.is_changed());
    assert!(FileState::Renamed.is_changed());
    assert!(FileState::Untracked.is_changed());
    assert!(FileState::Conflicted.is_changed());
}

#[test]
fn git_from_message_parses_commit() {
    assert_eq!(CommandType::from_message("commit: initial commit"), CommandType::Commit);
    assert_eq!(CommandType::from_message("Commit (amend): fix typo"), CommandType::Commit);
}

#[test]
fn git_from_message_parses_checkout() {
    assert_eq!(CommandType::from_message("checkout: moving from main to feature"), CommandType::Checkout);
}

#[test]
fn git_from_message_parses_merge() {
    assert_eq!(CommandType::from_message("merge feature-branch: Fast-forward"), CommandType::Merge);
}

#[test]
fn git_from_message_parses_rebase() {
    assert_eq!(CommandType::from_message("rebase (finish): refs/heads/main onto abc123"), CommandType::Rebase);
}

#[test]
fn git_from_message_parses_pull() {
    assert_eq!(CommandType::from_message("pull: Fast-forward"), CommandType::Pull);
}

#[test]
fn git_from_message_parses_reset() {
    assert_eq!(CommandType::from_message("reset: moving to HEAD~1"), CommandType::Reset);
}

#[test]
fn git_from_message_parses_cherry_pick() {
    assert_eq!(CommandType::from_message("cherry-pick: picked commit abc123"), CommandType::CherryPick);
}

#[test]
fn git_from_message_parses_revert() {
    assert_eq!(CommandType::from_message("revert: reverting abc123"), CommandType::Revert);
}

#[test]
fn git_from_message_parses_branch() {
    assert_eq!(CommandType::from_message("branch: created from HEAD"), CommandType::Branch);
}

#[test]
fn git_from_message_parses_clone() {
    assert_eq!(CommandType::from_message("clone: from https://github.com/user/repo"), CommandType::Clone);
}

#[test]
fn git_from_message_parses_init() {
    assert_eq!(CommandType::from_message("initial commit"), CommandType::Init);
}

#[test]
fn git_from_message_returns_other_for_unknown() {
    assert_eq!(CommandType::from_message("unknown operation"), CommandType::Other);
    assert_eq!(CommandType::from_message(""), CommandType::Other);
}

#[test]
fn git_icon_returns_non_empty_string() {
    let types = [
        CommandType::Commit,
        CommandType::Checkout,
        CommandType::Merge,
        CommandType::Rebase,
        CommandType::Pull,
        CommandType::Push,
        CommandType::Fetch,
        CommandType::Reset,
        CommandType::CherryPick,
        CommandType::Revert,
        CommandType::Branch,
        CommandType::Clone,
        CommandType::Init,
        CommandType::Stash,
        CommandType::Other,
    ];
    for cmd_type in types {
        assert!(!cmd_type.icon().is_empty(), "{cmd_type:?} should have non-empty icon");
    }
}

#[test]
fn git_working_changes_filters_modified_files() {
    let status = GitStatus {
        files: vec![
            make_file("changed.txt", FileState::Modified, FileState::Unmodified),
            make_file("unchanged.txt", FileState::Unmodified, FileState::Unmodified),
            make_file("added.txt", FileState::Added, FileState::Unmodified),
        ],
        ..Default::default()
    };
    let changes = status.working_changes();
    assert_eq!(changes.len(), 2);
    assert_eq!(changes[0].path, "changed.txt");
    assert_eq!(changes[1].path, "added.txt");
}

#[test]
fn git_staged_changes_filters_staged_files() {
    let status = GitStatus {
        files: vec![
            make_file("staged.txt", FileState::Unmodified, FileState::Modified),
            make_file("unstaged.txt", FileState::Modified, FileState::Unmodified),
            make_file("both.txt", FileState::Modified, FileState::Added),
        ],
        ..Default::default()
    };
    let staged = status.staged_changes();
    assert_eq!(staged.len(), 2);
    assert_eq!(staged[0].path, "staged.txt");
    assert_eq!(staged[1].path, "both.txt");
}

#[test]
fn types_as_char_returns_correct_characters() {
    assert_eq!(FileState::Unmodified.as_char(), ' ');
    assert_eq!(FileState::Modified.as_char(), 'M');
    assert_eq!(FileState::Added.as_char(), 'A');
    assert_eq!(FileState::Deleted.as_char(), 'D');
    assert_eq!(FileState::Renamed.as_char(), 'R');
    assert_eq!(FileState::Untracked.as_char(), '?');
    assert_eq!(FileState::Ignored.as_char(), '!');
    assert_eq!(FileState::Conflicted.as_char(), 'U');
}

#[test]
fn types_is_changed_returns_false_for_unchanged_states() {
    assert!(!FileState::Unmodified.is_changed());
    assert!(!FileState::Ignored.is_changed());
}

#[test]
fn types_is_changed_returns_true_for_changed_states() {
    assert!(FileState::Modified.is_changed());
    assert!(FileState::Added.is_changed());
    assert!(FileState::Deleted.is_changed());
    assert!(FileState::Renamed.is_changed());
    assert!(FileState::Untracked.is_changed());
    assert!(FileState::Conflicted.is_changed());
}

#[test]
fn types_from_message_parses_commit() {
    assert_eq!(CommandType::from_message("commit: initial commit"), CommandType::Commit);
    assert_eq!(CommandType::from_message("Commit (amend): fix typo"), CommandType::Commit);
}

#[test]
fn types_from_message_parses_checkout() {
    assert_eq!(CommandType::from_message("checkout: moving from main to feature"), CommandType::Checkout);
}

#[test]
fn types_from_message_parses_merge() {
    assert_eq!(CommandType::from_message("merge feature-branch: Fast-forward"), CommandType::Merge);
}

#[test]
fn types_from_message_parses_rebase() {
    assert_eq!(CommandType::from_message("rebase (finish): refs/heads/main onto abc123"), CommandType::Rebase);
}

#[test]
fn types_from_message_parses_pull() {
    assert_eq!(CommandType::from_message("pull: Fast-forward"), CommandType::Pull);
}

#[test]
fn types_from_message_parses_reset() {
    assert_eq!(CommandType::from_message("reset: moving to HEAD~1"), CommandType::Reset);
}

#[test]
fn types_from_message_parses_cherry_pick() {
    assert_eq!(CommandType::from_message("cherry-pick: picked commit abc123"), CommandType::CherryPick);
}

#[test]
fn types_from_message_parses_revert() {
    assert_eq!(CommandType::from_message("revert: reverting abc123"), CommandType::Revert);
}

#[test]
fn types_from_message_parses_branch() {
    assert_eq!(CommandType::from_message("branch: created from HEAD"), CommandType::Branch);
}

#[test]
fn types_from_message_parses_clone() {
    assert_eq!(CommandType::from_message("clone: from https://github.com/user/repo"), CommandType::Clone);
}

#[test]
fn types_from_message_parses_init() {
    assert_eq!(CommandType::from_message("initial commit"), CommandType::Init);
}

#[test]
fn types_from_message_returns_other_for_unknown() {
    assert_eq!(CommandType::from_message("unknown operation"), CommandType::Other);
    assert_eq!(CommandType::from_message(""), CommandType::Other);
}

#[test]
fn types_icon_returns_non_empty_string() {
    let types = [
        CommandType::Commit,
        CommandType::Checkout,
        CommandType::Merge,
        CommandType::Rebase,
        CommandType::Pull,
        CommandType::Push,
        CommandType::Fetch,
        CommandType::Reset,
        CommandType::CherryPick,
        CommandType::Revert,
        CommandType::Branch,
        CommandType::Clone,
        CommandType::Init,
        CommandType::Stash,
        CommandType::Other,
    ];
    for cmd_type in types {
        assert!(!cmd_type.icon().is_empty(), "{cmd_type:?} should have non-empty icon");
    }
}

#[test]
fn types_working_changes_filters_modified_files() {
    let status = GitStatus {
        files: vec![
            make_file("changed.txt", FileState::Modified, FileState::Unmodified),
            make_file("unchanged.txt", FileState::Unmodified, FileState::Unmodified),
            make_file("added.txt", FileState::Added, FileState::Unmodified),
        ],
        ..Default::default()
    };
    let changes = status.working_changes();
    assert_eq!(changes.len(), 2);
    assert_eq!(changes[0].path, "changed.txt");
    assert_eq!(changes[1].path, "added.txt");
}

#[test]
fn types_staged_changes_filters_staged_files() {
    let status = GitStatus {
        files: vec![
            make_file("staged.txt", FileState::Unmodified, FileState::Modified),
            make_file("unstaged.txt", FileState::Modified, FileState::Unmodified),
            make_file("both.txt", FileState::Modified, FileState::Added),
        ],
        ..Default::default()
    };
    let staged = status.staged_changes();
    assert_eq!(staged.len(), 2);
    assert_eq!(staged[0].path, "staged.txt");
    assert_eq!(staged[1].path, "both.txt");
}

#[test]
fn command_type_from_message_parses_commit() {
    assert_eq!(CommandType::from_message("commit: initial commit"), CommandType::Commit);
    assert_eq!(CommandType::from_message("Commit (amend): fix typo"), CommandType::Commit);
}

#[test]
fn command_type_from_message_parses_checkout() {
    assert_eq!(CommandType::from_message("checkout: moving from main to feature"), CommandType::Checkout);
}

#[test]
fn command_type_from_message_parses_merge() {
    assert_eq!(CommandType::from_message("merge feature-branch: Fast-forward"), CommandType::Merge);
}

#[test]
fn command_type_from_message_parses_rebase() {
    assert_eq!(CommandType::from_message("rebase (finish): refs/heads/main onto abc123"), CommandType::Rebase);
}

#[test]
fn command_type_from_message_parses_pull() {
    assert_eq!(CommandType::from_message("pull: Fast-forward"), CommandType::Pull);
}

#[test]
fn command_type_from_message_parses_reset() {
    assert_eq!(CommandType::from_message("reset: moving to HEAD~1"), CommandType::Reset);
}

#[test]
fn command_type_from_message_parses_cherry_pick() {
    assert_eq!(CommandType::from_message("cherry-pick: picked commit abc123"), CommandType::CherryPick);
}

#[test]
fn command_type_from_message_parses_revert() {
    assert_eq!(CommandType::from_message("revert: reverting abc123"), CommandType::Revert);
}

#[test]
fn command_type_from_message_parses_branch() {
    assert_eq!(CommandType::from_message("branch: created from HEAD"), CommandType::Branch);
}

#[test]
fn command_type_from_message_parses_clone() {
    assert_eq!(CommandType::from_message("clone: from https://github.com/user/repo"), CommandType::Clone);
}

#[test]
fn command_type_from_message_parses_init() {
    assert_eq!(CommandType::from_message("initial commit"), CommandType::Init);
}

#[test]
fn command_type_from_message_returns_other_for_unknown() {
    assert_eq!(CommandType::from_message("unknown operation"), CommandType::Other);
    assert_eq!(CommandType::from_message(""), CommandType::Other);
}

#[test]
fn command_type_icon_returns_non_empty_string() {
    let types = [
        CommandType::Commit,
        CommandType::Checkout,
        CommandType::Merge,
        CommandType::Rebase,
        CommandType::Pull,
        CommandType::Push,
        CommandType::Fetch,
        CommandType::Reset,
        CommandType::CherryPick,
        CommandType::Revert,
        CommandType::Branch,
        CommandType::Clone,
        CommandType::Init,
        CommandType::Stash,
        CommandType::Other,
    ];
    for cmd_type in types {
        assert!(!cmd_type.icon().is_empty(), "{cmd_type:?} should have non-empty icon");
    }
}

/// The timestamp `secs` seconds ago, taken away from the end of a second so
/// that the clock does not tick over before the label is computed.
fn seconds_ago(secs: i64) -> i64 {
    loop {
        let now = chrono::Local::now();
        if now.timestamp_subsec_millis() < 900 {
            return now.timestamp() - secs;
        }
    }
}

#[test]
fn just_now_for_recent() {
    let time = seconds_ago(30);

    let result = format_relative_time(time);

    assert_eq!(result, "just now");
}

#[test]
fn minutes_ago() {
    let time = seconds_ago(900);

    let result = format_relative_time(time);

    assert_eq!(result, "15 min ago");
}

#[test]
fn hours_ago() {
    let time = seconds_ago(18000);

    let result = format_relative_time(time);

    assert_eq!(result, "5 hr ago");
}

#[test]
fn days_ago() {
    let time = seconds_ago(259200);

    let result = format_relative_time(time);

    assert_eq!(result, "3 days ago");
}

#[test]
fn weeks_ago() {
    let time = seconds_ago(1209600);

    let result = format_relative_time(time);

    assert_eq!(result, "2 wk ago");
}

#[test]
fn months_ago() {
    let time = seconds_ago(5184000);

    let result = format_relative_time(time);

    assert_eq!(result, "2 mo ago");
}

#[test]
fn years_ago() {
    let time = seconds_ago(34560000);

    let result = format_relative_time(time);

    assert_eq!(result, "1 yr ago");
}

#[test]
fn boundary_59_seconds_is_just_now() {
    let time = seconds_ago(59);

    let result = format_relative_time(time);

    assert_eq!(result, "just now");
}

#[test]
fn boundary_60_seconds_is_1_min() {
    let time = seconds_ago(60);

    let result = format_relative_time(time);

    assert_eq!(result, "1 min ago");
}

#[test]
fn boundary_59_minutes_is_minutes() {
    let time = seconds_ago(3540);

    let result = format_relative_time(time);

    assert_eq!(result, "59 min ago");
}

#[test]
fn boundary_60_minutes_is_1_hr() {
    let time = seconds_ago(3600);

    let result = format_relative_time(time);

    assert_eq!(result, "1 hr ago");
}

#[test]
fn age_labels_at_unit_boundaries() {
    assert_eq!(age_label_for(-5), "just now");
    assert_eq!(age_label_for(0), "just now");
    assert_eq!(age_label_for(119), "1 min ago");
    assert_eq!(age_label_for(86_399), "23 hr ago");
    assert_eq!(age_label_for(86_400), "1 days ago");
    assert_eq!(age_label_for(6 * 86_400), "6 days ago");
    assert_eq!(age_label_for(7 * 86_400), "1 wk ago");
    assert_eq!(age_label_for(27 * 86_400), "3 wk ago");
    assert_eq!(age_label_for(28 * 86_400), "0 mo ago");
    assert_eq!(age_label_for(359 * 86_400), "11 mo ago");
    assert_eq!(age_label_for(360 * 86_400), "0 yr ago");
    assert_eq!(age_label_for(730 * 86_400), "2 yr ago");
}

#[test]
fn future_times_are_just_now() {
    assert_eq!(format_relative_time(seconds_ago(-3600)), "just now");
}

#[test]
fn status_bits_give_states() {
    assert_eq!(working_state_from_status(WT_NEW), FileState::Untracked);
    assert_eq!(working_state_from_status(WT_MODIFIED | WT_DELETED), FileState::Modified);
    assert_eq!(working_state_from_status(WT_DELETED), FileState::Deleted);
    assert_eq!(working_state_from_status(INDEX_NEW), FileState::Unmodified);
    assert_eq!(staged_state_from_status(INDEX_NEW | INDEX_MODIFIED), FileState::Added);
    assert_eq!(staged_state_from_status(INDEX_MODIFIED), FileState::Modified);
    assert_eq!(staged_state_from_status(WT_MODIFIED), FileState::Unmodified);
}

#[test]
fn checkout_is_blocked_by_uncommitted_changes() {
    assert!(!has_uncommitted_changes(&vec![]));
    assert!(!has_uncommitted_changes(&vec![WT_NEW]));
    assert!(has_uncommitted_changes(&vec![WT_NEW, WT_MODIFIED]));
    assert!(has_uncommitted_changes(&vec![INDEX_NEW]));
    assert!(has_uncommitted_changes(&vec![WT_DELETED]));
}

#[test]
fn references_give_decorations() {
    assert_eq!(
        decoration_for_ref("refs/heads/main"),
        Some(RefDecoration::LocalBranch("main".to_string()))
    );
    assert_eq!(
        decoration_for_ref("refs/remotes/origin/main"),
        Some(RefDecoration::RemoteBranch("origin/main".to_string()))
    );
    assert_eq!(decoration_for_ref("refs/remotes/origin/HEAD"), None);
    assert_eq!(
        decoration_for_ref("refs/tags/v1.0"),
        Some(RefDecoration::Tag("v1.0".to_string()))
    );
    assert_eq!(decoration_for_ref("refs/stash"), None);
}

#[test]
fn ref_index_collects_decorations_per_commit() {
    let mut refs = RefIndex::new();
    refs.add("abc1234".to_string(), RefDecoration::Head);
    assert!(refs.add_ref("abc1234".to_string(), "refs/heads/main"));
    assert!(!refs.add_ref("abc1234".to_string(), "refs/remotes/origin/HEAD"));
    assert!(refs.add_ref("def5678".to_string(), "refs/tags/v1"));

    assert_eq!(
        refs.decorations("abc1234"),
        vec![RefDecoration::Head, RefDecoration::LocalBranch("main".to_string())]
    );
    assert_eq!(refs.decorations("def5678"), vec![RefDecoration::Tag("v1".to_string())]);
    assert!(refs.decorations("0000000").is_empty());

    let entry = GitCommand::commit("msg".to_string(), 10, "def5678".to_string(), &refs, true);
    assert_eq!(entry.command_type, CommandType::Commit);
    assert_eq!(entry.sha.as_deref(), Some("def5678"));
    assert_eq!(entry.decorations, vec![RefDecoration::Tag("v1".to_string())]);
    assert!(entry.is_remote_only);

    let reflog = GitCommand::reflog_entry(
        "checkout: moving from a to b".to_string(),
        20,
        "abc1234".to_string(),
        &refs,
    );
    assert_eq!(reflog.command_type, CommandType::Checkout);
    assert_eq!(reflog.decorations.len(), 2);
    assert!(!reflog.is_remote_only);
}

fn commit(sha: &str) -> GitCommand {
    GitCommand::commit(sha.to_string(), 0, sha.to_string(), &RefIndex::new(), false)
}

fn shas(log: &[GitCommand]) -> Vec<String> {
    log.iter().map(|c| c.sha.clone().unwrap_or_default()).collect()
}

#[test]
fn remote_commits_go_before_merge_base() {
    let log = splice_remote_commits(
        vec![commit("c3"), commit("c2"), commit("c1")],
        vec![commit("r2"), commit("r1")],
        Some("c2".to_string()),
    );
    assert_eq!(shas(&log), vec!["c3", "r2", "r1", "c2", "c1"]);
}

#[test]
fn remote_commits_go_last_without_listed_merge_base() {
    let log = splice_remote_commits(
        vec![commit("c2"), commit("c1")],
        vec![commit("r1")],
        Some("c0".to_string()),
    );
    assert_eq!(shas(&log), vec!["c2", "c1", "r1"]);
    let log = splice_remote_commits(vec![commit("c1")], vec![commit("r1")], None);
    assert_eq!(shas(&log), vec!["c1", "r1"]);
}

#[test]
fn branch_list_puts_current_first_then_by_name() {
    let names: Vec<String> = ["zeta", "", "alpha", "main", "beta"].iter().map(|s| s.to_string()).collect();
    let branches = branch_list(&names, Some("main"));
    let listed: Vec<(&str, bool)> = branches.iter().map(|b| (b.name.as_str(), b.is_current)).collect();
    assert_eq!(
        listed,
        vec![("main", true), ("alpha", false), ("beta", false), ("zeta", false)]
    );
    assert!(branches.iter().all(|b| !b.is_remote));

    let detached = branch_list(&names, None);
    let order: Vec<&str> = detached.iter().map(|b| b.name.as_str()).collect();
    assert_eq!(order, vec!["alpha", "beta", "main", "zeta"]);
}

fn file_event(path: &str, kind: DeltaKind) -> DiffEvent {
    DiffEvent::File {
        path: path.to_string(),
        kind,
    }
}

fn line_event(path: &str, origin: char) -> DiffEvent {
    DiffEvent::Line {
        path: path.to_string(),
        origin,
    }
}

#[test]
fn commit_files_are_tallied_and_sorted() {
    let events = vec![
        file_event("src/main.rs", DeltaKind::Modified),
        line_event("src/main.rs", '+'),
        line_event("src/main.rs", '+'),
        line_event("src/main.rs", '-'),
        line_event("src/main.rs", ' '),
        file_event("README.md", DeltaKind::Added),
        line_event("README.md", '+'),
        file_event("old.txt", DeltaKind::Deleted),
        line_event("old.txt", '-'),
        line_event("unknown.txt", '+'),
        file_event("copy.rs", DeltaKind::Copied),
        file_event("moved.rs", DeltaKind::Renamed),
        file_event("mode.sh", DeltaKind::Typechange),
    ];
    let files = commit_files(&events);
    let summary: Vec<(&str, FileState, usize, usize)> = files
        .iter()
        .map(|f| (f.path.as_str(), f.status, f.insertions, f.deletions))
        .collect();
    assert_eq!(
        summary,
        vec![
            ("README.md", FileState::Added, 1, 0),
            ("copy.rs", FileState::Added, 0, 0),
            ("mode.sh", FileState::Modified, 0, 0),
            ("moved.rs", FileState::Renamed, 0, 0),
            ("old.txt", FileState::Deleted, 0, 1),
            ("src/main.rs", FileState::Modified, 2, 1),
        ]
    );
}

#[test]
fn a_file_reported_again_starts_over() {
    let events = vec![
        file_event("a.rs", DeltaKind::Modified),
        line_event("a.rs", '+'),
        file_event("a.rs", DeltaKind::Added),
        line_event("a.rs", '-'),
    ];
    let files = commit_files(&events);
    assert_eq!(files.len(), 1);
    assert_eq!(files[0].status, FileState::Added);
    assert_eq!((files[0].insertions, files[0].deletions), (0, 1));
}

#[test]
fn signed_commits_are_recognised() {
    assert_eq!(
        signature_status(Some("tree abc\ngpgsig -----BEGIN PGP SIGNATURE-----\n")),
        Some("Signed".to_string())
    );
    assert_eq!(signature_status(Some("tree abc\nauthor me\n")), None);
    assert_eq!(signature_status(None), None);
}

fn diff_line(path: &str, origin: char) -> DiffLine {
    DiffLine {
        path: path.to_string(),
        origin,
    }
}

#[test]
fn line_count_counts_one_origin_of_one_file() {
    let lines = vec![diff_line("a", '+'), diff_line("b", '+'), diff_line("a", '+'), diff_line("a", '-')];
    assert_eq!(line_count(&lines, "a", '+'), 2);
    assert_eq!(line_count(&lines, "a", '-'), 1);
    assert_eq!(line_count(&lines, "c", '+'), 0);
}

#[test]
fn file_statuses_keep_changed_files_in_path_order() {
    let entries = vec![
        StatusEntry {
            path: "z.rs".to_string(),
            bits: WT_MODIFIED,
        },
        StatusEntry {
            path: "a.rs".to_string(),
            bits: INDEX_NEW | WT_MODIFIED,
        },
        StatusEntry {
            path: "clean.rs".to_string(),
            bits: 0,
        },
        StatusEntry {
            path: "m.rs".to_string(),
            bits: WT_NEW,
        },
    ];
    let staged = vec![diff_line("a.rs", '+'), diff_line("a.rs", '+')];
    let working = vec![diff_line("a.rs", '-'), diff_line("z.rs", '+'), diff_line("z.rs", '-')];
    let files = file_statuses(&entries, &staged, &working);
    let paths: Vec<&str> = files.iter().map(|f| f.path.as_str()).collect();
    assert_eq!(paths, vec!["a.rs", "m.rs", "z.rs"]);
    assert_eq!(files[0].staged, FileState::Added);
    assert_eq!(files[0].working, FileState::Modified);
    assert_eq!((files[0].staged_insertions, files[0].working_deletions), (2, 1));
    assert_eq!(files[1].working, FileState::Untracked);
    assert_eq!((files[2].working_insertions, files[2].working_deletions), (1, 1));
}

#[test]
fn selected_file_maps_list_positions() {
    let status = GitStatus {
        files: vec![
            make_file("staged.txt", FileState::Unmodified, FileState::Modified),
            make_file("both.txt", FileState::Modified, FileState::Added),
            make_file("work.txt", FileState::Deleted, FileState::Unmodified),
        ],
        ..Default::default()
    };
    assert_eq!(status.selected_file(None), None);
    assert_eq!(status.selected_file(Some(0)), None);
    assert_eq!(
        status.selected_file(Some(1)),
        Some(("staged.txt".to_string(), true, FileState::Modified))
    );
    assert_eq!(
        status.selected_file(Some(2)),
        Some(("both.txt".to_string(), true, FileState::Added))
    );
    assert_eq!(
        status.selected_file(Some(3)),
        Some(("both.txt".to_string(), false, FileState::Modified))
    );
    assert_eq!(
        status.selected_file(Some(4)),
        Some(("work.txt".to_string(), false, FileState::Deleted))
    );
    assert_eq!(status.selected_file(Some(5)), None);
}

#[test]
fn lowercase_messages_are_classified() {
    assert_eq!(CommandType::from_lowercase_message("commit (amend): x"), CommandType::Commit);
    assert_eq!(CommandType::from_lowercase_message("Commit: x"), CommandType::Other);
    assert_eq!(CommandType::from_lowercase_message("pull --rebase: initial"), CommandType::Pull);
    assert_eq!(CommandType::from_lowercase_message("fast-forward to initial state"), CommandType::Init);
}

fn listed_branches(created: &[&str]) -> Vec<git_monitor::git::BranchInfo> {
    let mut names: Vec<String> = vec!["main".to_string()];
    names.extend(created.iter().map(|s| s.to_string()));
    branch_list(&names, Some("main"))
}

#[test]
fn lists_multiple_branches() {
    let branches = listed_branches(&["feature-a", "feature-b"]);
    assert_eq!(branches.len(), 3);
}

#[test]
fn marks_current_branch() {
    let branches = listed_branches(&["other"]);
    let current_count = branches.iter().filter(|b| b.is_current).count();
    assert_eq!(current_count, 1);
}

#[test]
fn sorts_current_branch_first() {
    let branches = listed_branches(&["aaa-branch", "bbb-branch"]);
    assert!(branches[0].is_current);
}

#[test]
fn sorts_remaining_branches_alphabetically() {
    let branches = listed_branches(&["zebra", "alpha", "beta"]);
    let non_current: Vec<_> = branches.iter().skip(1).map(|b| b.name.as_str()).collect();
    let mut sorted = non_current.clone();
    sorted.sort();
    assert_eq!(non_current, sorted);
}

#[test]
fn file_statuses_order_paths_by_component() {
    let entries = vec![
        StatusEntry {
            path: "a.txt".to_string(),
            bits: WT_MODIFIED,
        },
        StatusEntry {
            path: "a/b".to_string(),
            bits: WT_MODIFIED,
        },
        StatusEntry {
            path: "a-z".to_string(),
            bits: WT_MODIFIED,
        },
    ];
    let files = file_statuses(&entries, &vec![], &vec![]);
    let paths: Vec<&str> = files.iter().map(|f| f.path.as_str()).collect();
    assert_eq!(paths, vec!["a/b", "a-z", "a.txt"]);
    let mut by_path: Vec<std::path::PathBuf> =
        ["a.txt", "a/b", "a-z"].iter().map(std::path::PathBuf::from).collect();
    by_path.sort();
    assert_eq!(by_path, vec!["a/b", "a-z", "a.txt"].iter().map(std::path::PathBuf::from).collect::<Vec<_>>());
}

#[test]
fn label_for_a_clock_reading() {
    assert_eq!(label_for(1_000, 970), "just now");
    assert_eq!(label_for(1_000_000, 1_000_000 - 7200), "2 hr ago");
    assert_eq!(label_for(0, 300), "just now");
    assert_eq!(label_for(i64::MAX, i64::MIN), age_label_for(i64::MAX));
}

#[test]
fn pages_of_a_walk_follow_each_other() {
    let walk = || vec!["Third commit", "Second commit", "Initial commit"];
    let first = page(walk(), 0, 2);
    let second = page(walk(), 2, 2);
    assert_eq!(first, vec!["Third commit", "Second commit"]);
    assert_eq!(second, vec!["Initial commit"]);
    let both: Vec<&str> = first.iter().chain(second.iter()).copied().collect();
    assert_eq!(both, walk());
    assert!(page(walk(), 3, 2).is_empty());
    assert_eq!(page(walk(), 1, usize::MAX), vec!["Second commit", "Initial commit"]);
}

#[test]
fn untracked_files_are_counted() {
    let status = GitStatus {
        files: vec![
            make_file("new.txt", FileState::Untracked, FileState::Unmodified),
            make_file("mod.txt", FileState::Modified, FileState::Unmodified),
            make_file("other.txt", FileState::Untracked, FileState::Unmodified),
        ],
        ..Default::default()
    };
    assert_eq!(status.untracked_count(), 2);
    assert_eq!(GitStatus::default().untracked_count(), 0);
}
