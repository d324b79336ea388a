use repo_insight::CommitItem;
use repo_insight::EntryKind;
use repo_insight::analyze_data;
use repo_insight::classify_entry;
use repo_insight::collect_branches;
use repo_insight::count_files;
use repo_insight::walk_history;

#[test]
fn classify_entry_recognizes_all_kinds() {
    assert_eq!(classify_entry(0o100644), EntryKind::File);
    assert_eq!(classify_entry(0o100755), EntryKind::File);
    assert_eq!(classify_entry(0o100664), EntryKind::File);
    assert_eq!(classify_entry(0o040000), EntryKind::Directory);
    assert_eq!(classify_entry(0o120000), EntryKind::Symlink);
    assert_eq!(classify_entry(0o160000), EntryKind::Submodule);
    assert_eq!(classify_entry(0), EntryKind::Other);
    assert_eq!(classify_entry(-1), EntryKind::Other);
}

#[test]
fn count_files_counts_only_regular_files() {
    let modes = vec![0o100644, 0o040000, 0o100755, 0o120000, 0o160000, 0o100644];
    assert_eq!(count_files(&modes), 3);
}

#[test]
fn count_files_of_empty_tree_is_zero() {
    let modes: Vec<i32> = Vec::new();
    assert_eq!(count_files(&modes), 0);
}

#[test]
fn walk_history_tallies_per_author() {
    let items = vec![
        CommitItem::Authored(Some("alice".to_string())),
        CommitItem::Authored(Some("bob".to_string())),
        CommitItem::Authored(Some("alice".to_string())),
    ];
    let (count, tally) = walk_history(&items);
    assert_eq!(count, 3);
    assert_eq!(tally.len(), 2);
    assert_eq!(tally.get(&"alice".to_string()), Some(2));
    assert_eq!(tally.get(&"bob".to_string()), Some(1));
    assert_eq!(tally.get(&"carol".to_string()), None);
}

#[test]
fn walk_history_skips_unreadable_commits() {
    let items = vec![
        CommitItem::Authored(Some("alice".to_string())),
        CommitItem::Unreadable,
        CommitItem::Authored(Some("alice".to_string())),
    ];
    let (count, tally) = walk_history(&items);
    assert_eq!(count, 2);
    assert_eq!(tally.len(), 1);
    assert_eq!(tally.get(&"alice".to_string()), Some(2));
}

#[test]
fn walk_history_uses_unknown_for_missing_or_empty_author() {
    let items = vec![
        CommitItem::Authored(None),
        CommitItem::Authored(Some(String::new())),
        CommitItem::Authored(Some("alice".to_string())),
    ];
    let (count, tally) = walk_history(&items);
    assert_eq!(count, 3);
    assert_eq!(tally.len(), 2);
    assert_eq!(tally.get(&"Unknown".to_string()), Some(2));
    assert_eq!(tally.get(&"alice".to_string()), Some(1));
}

#[test]
fn walk_history_count_equals_sum_of_tally() {
    let items = vec![
        CommitItem::Authored(Some("a".to_string())),
        CommitItem::Authored(Some("b".to_string())),
        CommitItem::Unreadable,
        CommitItem::Authored(Some("a".to_string())),
        CommitItem::Authored(None),
    ];
    let (count, tally) = walk_history(&items);
    let sum: usize = tally.entries().iter().map(|e| e.1).sum();
    assert_eq!(count, sum);
    assert_eq!(count, 4);
}

#[test]
fn collect_branches_keeps_order_and_skips_unnamed() {
    let raw = vec![
        Some("main".to_string()),
        None,
        Some("feature".to_string()),
    ];
    let branches = collect_branches(&raw);
    assert_eq!(branches, vec!["main".to_string(), "feature".to_string()]);
}

#[test]
fn analyze_data_combines_all_folds() {
    let path = "some/repo".to_string();
    let raw_branches = vec![Some("main".to_string())];
    let items = vec![
        CommitItem::Authored(Some("alice".to_string())),
        CommitItem::Authored(Some("alice".to_string())),
    ];
    let modes = vec![0o100644, 0o040000, 0o100644];
    let report = analyze_data(&path, &raw_branches, &items, &modes);
    assert_eq!(report.repo_path, "some/repo");
    assert_eq!(report.branches, vec!["main".to_string()]);
    assert_eq!(report.commit_count, 2);
    assert_eq!(report.contributors.get(&"alice".to_string()), Some(2));
    assert_eq!(report.file_count, 2);
}

#[test]
fn analyze_data_of_empty_traversals_is_all_zero() {
    let path = "p".to_string();
    let report = analyze_data(&path, &Vec::new(), &Vec::new(), &Vec::new());
    assert_eq!(report.commit_count, 0);
    assert_eq!(report.contributors.len(), 0);
    assert_eq!(report.file_count, 0);
    assert!(report.branches.is_empty());
}
