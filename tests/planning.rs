use ipfs_cp::entry::{Entry, EntryKind, ENTRY_TYPE_FILE, ENTRY_TYPE_FOLDER};
use ipfs_cp::errors::MainError;
use ipfs_cp::plan::order_entries;
use ipfs_cp::policy::{
    apply_unpinned_rule, not_pinned_error, pin_status, PinOutcome, PinStatus, UnpinnedRule,
};
use ipfs_cp::text::contains_text;
use ipfs_cp::util::format_size;

fn entry(name: &str, size: u64, typ: u64) -> Entry {
    Entry::new(name.to_string(), format!("Qm{}", name), size, typ)
}

fn names(v: &[Entry]) -> Vec<String> {
    v.iter().map(|e| e.name.clone()).collect()
}

#[test]
fn format_size_below_a_megabyte_in_kilobytes() {
    assert_eq!(format_size(0), "0 kb");
    assert_eq!(format_size(1023), "0 kb");
    assert_eq!(format_size(2048), "2 kb");
    assert_eq!(format_size(1024 * 1024 - 1), "1023 kb");
}

#[test]
fn format_size_from_a_megabyte_in_megabytes() {
    assert_eq!(format_size(1024 * 1024), "1 mb");
    assert_eq!(format_size(5 * 1024 * 1024 + 7), "5 mb");
    assert_eq!(format_size(u64::MAX), "17592186044415 mb");
}

#[test]
fn ordering_files_by_size_then_folders_then_others() {
    let entries = vec![
        entry("f5", 5, ENTRY_TYPE_FILE),
        entry("dir", 0, ENTRY_TYPE_FOLDER),
        entry("f2", 2, ENTRY_TYPE_FILE),
        entry("other", 0, 2),
    ];
    let ordered = order_entries(entries);
    assert_eq!(names(&ordered), vec!["f2", "f5", "dir", "other"]);
    assert_eq!(ordered[0].kind(), EntryKind::File);
    assert_eq!(ordered[0].size, 2);
    assert_eq!(ordered[1].size, 5);
    assert_eq!(ordered[2].kind(), EntryKind::Directory);
    assert_eq!(ordered[3].kind(), EntryKind::Other);
}

#[test]
fn ordering_keeps_input_order_of_equal_keys() {
    let entries = vec![
        entry("b", 3, ENTRY_TYPE_FILE),
        entry("y", 0, ENTRY_TYPE_FOLDER),
        entry("a", 3, ENTRY_TYPE_FILE),
        entry("x", 0, ENTRY_TYPE_FOLDER),
        entry("c", 1, ENTRY_TYPE_FILE),
    ];
    let ordered = order_entries(entries);
    assert_eq!(names(&ordered), vec!["c", "b", "a", "y", "x"]);
}

#[test]
fn ordering_of_empty_listing() {
    assert!(order_entries(Vec::new()).is_empty());
}

#[test]
fn contains_text_finds_substrings() {
    assert!(contains_text("abcdef", "cde"));
    assert!(contains_text("abc", ""));
    assert!(contains_text("abc", "abc"));
    assert!(!contains_text("abc", "abcd"));
    assert!(!contains_text("abcabd", "abe"));
    assert!(contains_text("xxabd", "abd"));
}

#[test]
fn pin_listing_decides_pinned() {
    let hash = "QmA".to_string();
    let listed = PinOutcome::Listed(vec!["QmB".to_string(), "QmA".to_string()]);
    assert_eq!(pin_status(&hash, &listed), PinStatus::Pinned);
    let other = PinOutcome::Listed(vec!["QmB".to_string()]);
    assert_eq!(pin_status(&hash, &other), PinStatus::NotPinned);
    assert_eq!(pin_status(&hash, &PinOutcome::Listed(Vec::new())), PinStatus::NotPinned);
}

#[test]
fn not_pinned_failure_reads_as_not_pinned() {
    let hash = "QmXyz".to_string();
    let failed = PinOutcome::Failed("path 'QmXyz' is not pinned".to_string());
    assert_eq!(pin_status(&hash, &failed), PinStatus::NotPinned);
    assert!(not_pinned_error("QmXyz", "path 'QmXyz' is not pinned"));
}

#[test]
fn other_pin_failures_stay_failures() {
    let hash = "QmXyz".to_string();
    let refused = PinOutcome::Failed("connection refused".to_string());
    assert_eq!(pin_status(&hash, &refused), PinStatus::Failed);
    let other_hash = PinOutcome::Failed("path 'QmAbc' is not pinned".to_string());
    assert_eq!(pin_status(&hash, &other_hash), PinStatus::Failed);
    let no_phrase = PinOutcome::Failed("QmXyz: timeout".to_string());
    assert_eq!(pin_status(&hash, &no_phrase), PinStatus::Failed);
    assert!(!not_pinned_error("QmXyz", "QmXyz is pinned indirectly"));
}

#[test]
fn ban_with_an_unpinned_entry_fails() {
    let entries = vec![entry("a", 1, ENTRY_TYPE_FILE)];
    let r = apply_unpinned_rule(entries, &vec![false], UnpinnedRule::Ban);
    assert!(matches!(r, Err(MainError::Unpinned(1))));
}

#[test]
fn ban_counts_every_unpinned_entry() {
    let entries = vec![
        entry("a", 1, ENTRY_TYPE_FILE),
        entry("b", 2, ENTRY_TYPE_FILE),
        entry("c", 3, ENTRY_TYPE_FILE),
    ];
    let r = apply_unpinned_rule(entries, &vec![false, true, false], UnpinnedRule::Ban);
    assert!(matches!(r, Err(MainError::Unpinned(2))));
}

#[test]
fn ban_with_everything_pinned_keeps_the_plan() {
    let entries = vec![entry("a", 1, ENTRY_TYPE_FILE), entry("b", 2, ENTRY_TYPE_FILE)];
    let plan = apply_unpinned_rule(entries, &vec![true, true], UnpinnedRule::Ban).unwrap();
    assert_eq!(names(&plan.entries), vec!["a", "b"]);
    assert!(plan.ignored.is_empty());
}

#[test]
fn ignore_leaves_out_unpinned_entries() {
    let entries = vec![entry("A", 1, ENTRY_TYPE_FILE), entry("B", 2, ENTRY_TYPE_FILE)];
    let plan = apply_unpinned_rule(entries, &vec![true, false], UnpinnedRule::Ignore).unwrap();
    assert_eq!(names(&plan.entries), vec!["A"]);
    assert_eq!(names(&plan.ignored), vec!["B"]);
}

#[test]
fn ignore_keeps_order_of_the_rest() {
    let entries = vec![
        entry("a", 1, ENTRY_TYPE_FILE),
        entry("b", 2, ENTRY_TYPE_FILE),
        entry("c", 3, ENTRY_TYPE_FILE),
        entry("d", 0, ENTRY_TYPE_FOLDER),
    ];
    let plan =
        apply_unpinned_rule(entries, &vec![true, false, true, true], UnpinnedRule::Ignore).unwrap();
    assert_eq!(names(&plan.entries), vec!["a", "c", "d"]);
    assert_eq!(names(&plan.ignored), vec!["b"]);
}

#[test]
fn copy_keeps_unpinned_entries() {
    let entries = vec![entry("A", 1, ENTRY_TYPE_FILE), entry("B", 2, ENTRY_TYPE_FILE)];
    let plan = apply_unpinned_rule(entries, &vec![true, false], UnpinnedRule::Copy).unwrap();
    assert_eq!(names(&plan.entries), vec!["A", "B"]);
    assert!(plan.ignored.is_empty());
}
