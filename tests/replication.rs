use ipfs_cp::entry::{Entry, ENTRY_TYPE_FILE, ENTRY_TYPE_FOLDER};
use ipfs_cp::errors::MainError;
use ipfs_cp::mirror::{check_local_target, check_target_folder, MirrorQueue, MirrorTask, Progress};
use ipfs_cp::policy::{apply_unpinned_rule, UnpinnedRule};
use ipfs_cp::replicate::{
    content_path, copy_step, missing_file_error, target_child_path, CopyStep, StoreAction,
    StoreEvent, StoreRun, StoreStep,
};

fn entry(name: &str, hash: &str, size: u64, typ: u64) -> Entry {
    Entry::new(name.to_string(), hash.to_string(), size, typ)
}

fn s(x: &str) -> String {
    x.to_string()
}

#[test]
fn copy_step_compares_hashes() {
    assert_eq!(copy_step(&s("QmA"), &None), CopyStep::Copy);
    assert_eq!(copy_step(&s("QmA"), &Some(s("QmA"))), CopyStep::AlreadyPresent);
    assert_eq!(copy_step(&s("QmA"), &Some(s("QmB"))), CopyStep::Conflict);
}

#[test]
fn missing_file_message_is_recognised() {
    assert!(missing_file_error("file does not exist"));
    assert!(missing_file_error("files/stat: file does not exist"));
    assert!(!missing_file_error("permission denied"));
}

#[test]
fn paths_on_the_target_store() {
    assert_eq!(target_child_path(&s("/dst"), &s("a.txt")), "/dst/a.txt");
    assert_eq!(content_path(&s("QmA")), "/ipfs/QmA");
}

/// Drives a run, answering each lookup from `existing`; returns the actions taken.
fn drive(run: &mut StoreRun, existing: &dyn Fn(&str) -> Option<String>) -> Vec<StoreAction> {
    let mut actions = Vec::new();
    for _ in 0..100 {
        let action = run.action();
        let event = match &action {
            StoreAction::Done => break,
            StoreAction::StatEntry(p) => StoreEvent::Existing(existing(p)),
            StoreAction::StatRoot(_) => StoreEvent::RootHash(s("QmRoot")),
            _ => StoreEvent::Completed,
        };
        actions.push(action);
        run.advance(event);
    }
    actions
}

fn count_copies(actions: &[StoreAction]) -> usize {
    actions.iter().filter(|a| matches!(a, StoreAction::CopyByHash(_, _))).count()
}

#[test]
fn first_run_copies_every_missing_entry() {
    let plan = vec![entry("a", "QmA", 1, ENTRY_TYPE_FILE), entry("d", "QmD", 0, ENTRY_TYPE_FOLDER)];
    let mut run = StoreRun::new(plan, s("/dst"));
    let actions = drive(&mut run, &|_| None);
    assert_eq!(
        actions,
        vec![
            StoreAction::MakeDirectory(s("/dst")),
            StoreAction::Pin(s("QmA")),
            StoreAction::StatEntry(s("/dst/a")),
            StoreAction::CopyByHash(s("/ipfs/QmA"), s("/dst/a")),
            StoreAction::Pin(s("QmD")),
            StoreAction::StatEntry(s("/dst/d")),
            StoreAction::CopyByHash(s("/ipfs/QmD"), s("/dst/d")),
            StoreAction::StatRoot(s("/dst")),
            StoreAction::Pin(s("QmRoot")),
        ]
    );
    assert!(run.is_finished());
}

#[test]
fn second_run_copies_nothing() {
    let plan = vec![entry("a", "QmA", 1, ENTRY_TYPE_FILE), entry("b", "QmB", 2, ENTRY_TYPE_FILE)];
    let mut run = StoreRun::new(plan, s("/dst"));
    let actions = drive(&mut run, &|p| match p {
        "/dst/a" => Some(s("QmA")),
        "/dst/b" => Some(s("QmB")),
        _ => None,
    });
    assert_eq!(count_copies(&actions), 0);
    assert_eq!(actions.iter().filter(|a| matches!(a, StoreAction::Pin(_))).count(), 3);
    assert!(run.is_finished());
}

#[test]
fn conflicting_entry_is_left_alone() {
    let plan = vec![entry("a", "QmA", 1, ENTRY_TYPE_FILE)];
    let mut run = StoreRun::new(plan, s("/dst"));
    run.advance(StoreEvent::Completed);
    run.advance(StoreEvent::Completed);
    assert_eq!(run.current_step(), StoreStep::Stat(0));
    let r = run.advance(StoreEvent::Existing(Some(s("QmOld"))));
    assert_eq!(r, Some(CopyStep::Conflict));
    assert_eq!(run.current_step(), StoreStep::StatRoot);
}

#[test]
fn empty_plan_still_pins_the_root() {
    let mut run = StoreRun::new(Vec::new(), s("/dst"));
    let actions = drive(&mut run, &|_| None);
    assert_eq!(
        actions,
        vec![
            StoreAction::MakeDirectory(s("/dst")),
            StoreAction::StatRoot(s("/dst")),
            StoreAction::Pin(s("QmRoot")),
        ]
    );
}

#[test]
fn unexpected_event_leaves_the_step() {
    let mut run = StoreRun::new(Vec::new(), s("/dst"));
    assert_eq!(run.advance(StoreEvent::RootHash(s("QmX"))), None);
    assert_eq!(run.current_step(), StoreStep::MakeRoot);
}

#[test]
fn ban_stops_before_any_copy() {
    let entries = vec![entry("a", "QmA", 1, ENTRY_TYPE_FILE)];
    let r = apply_unpinned_rule(entries, &vec![false], UnpinnedRule::Ban);
    assert_eq!(r.err(), Some(MainError::Unpinned(1)));
}

#[test]
fn ignore_run_copies_only_pinned_entry() {
    let entries = vec![entry("A", "QmA", 1, ENTRY_TYPE_FILE), entry("B", "QmB", 2, ENTRY_TYPE_FILE)];
    let plan = apply_unpinned_rule(entries, &vec![true, false], UnpinnedRule::Ignore).unwrap();
    let mut run = StoreRun::new(plan.entries, s("/dst"));
    let actions = drive(&mut run, &|_| None);
    let copies: Vec<&StoreAction> =
        actions.iter().filter(|a| matches!(a, StoreAction::CopyByHash(_, _))).collect();
    assert_eq!(copies, vec![&StoreAction::CopyByHash(s("/ipfs/QmA"), s("/dst/A"))]);
}

#[test]
fn copy_run_attempts_both_entries() {
    let entries = vec![entry("A", "QmA", 1, ENTRY_TYPE_FILE), entry("B", "QmB", 2, ENTRY_TYPE_FILE)];
    let plan = apply_unpinned_rule(entries, &vec![true, false], UnpinnedRule::Copy).unwrap();
    let mut run = StoreRun::new(plan.entries, s("/dst"));
    let actions = drive(&mut run, &|_| None);
    assert_eq!(count_copies(&actions), 2);
}

#[test]
fn target_folder_must_be_absolute() {
    assert_eq!(check_target_folder(&s("/dst")), Ok(()));
    assert_eq!(check_target_folder(&s("dst")), Err(MainError::FolderNotAbsolute(s("dst"))));
    assert_eq!(check_target_folder(&s("")), Err(MainError::FolderNotAbsolute(s(""))));
}

#[test]
fn local_target_must_be_an_existing_directory() {
    assert_eq!(check_local_target(&s("out"), true, true), Ok(()));
    assert_eq!(check_local_target(&s("out"), false, false), Err(MainError::TargetMissing(s("out"))));
    assert_eq!(
        check_local_target(&s("out"), true, false),
        Err(MainError::TargetNotDirectory(s("out")))
    );
}

#[test]
fn mirror_walks_the_tree_depth_first() {
    let root = vec![entry("sub", "QmS", 0, ENTRY_TYPE_FOLDER), entry("a.txt", "QmA", 10, ENTRY_TYPE_FILE)];
    let mut queue = MirrorQueue::new(root);
    assert_eq!(
        queue.next(),
        Some(MirrorTask::Download { source: s("/a.txt"), local: vec![s("a.txt")], size: 10 })
    );
    let task = queue.next();
    assert_eq!(task, Some(MirrorTask::Descend { listing: s("/sub/"), local: vec![s("sub")] }));
    queue.descend(&s("/sub/"), &vec![s("sub")], vec![entry("b.txt", "QmB", 20, ENTRY_TYPE_FILE)]);
    assert_eq!(
        queue.next(),
        Some(MirrorTask::Download {
            source: s("/sub/b.txt"),
            local: vec![s("sub"), s("b.txt")],
            size: 20
        })
    );
    assert!(queue.is_empty());
    assert_eq!(queue.next(), None);
}

#[test]
fn mirror_handles_a_folder_before_later_siblings() {
    let root = vec![
        entry("d", "QmD", 0, ENTRY_TYPE_FOLDER),
        entry("e", "QmE", 0, ENTRY_TYPE_FOLDER),
        entry("link", "QmL", 0, 2),
    ];
    let mut queue = MirrorQueue::new(root);
    assert_eq!(queue.next(), Some(MirrorTask::Descend { listing: s("/d/"), local: vec![s("d")] }));
    queue.descend(&s("/d/"), &vec![s("d")], vec![entry("x", "QmX", 3, ENTRY_TYPE_FILE)]);
    assert_eq!(
        queue.next(),
        Some(MirrorTask::Download { source: s("/d/x"), local: vec![s("d"), s("x")], size: 3 })
    );
    assert_eq!(queue.next(), Some(MirrorTask::Descend { listing: s("/e/"), local: vec![s("e")] }));
    queue.descend(&s("/e/"), &vec![s("e")], Vec::new());
    assert_eq!(queue.next(), Some(MirrorTask::Skip { source: s("/link"), typ: 2 }));
    assert_eq!(queue.next(), None);
}

#[test]
fn progress_reports_only_changed_sizes() {
    let mut p = Progress::new();
    assert_eq!(p.record(100), Some(s("0 kb")));
    assert_eq!(p.record(100), None);
    assert_eq!(p.record(1000), Some(s("1 kb")));
    assert_eq!(p.copied, 1200);
    assert_eq!(p.record(1024 * 1024), Some(s("1 mb")));
    assert_eq!(p.record(u64::MAX), Some(s("17592186044415 mb")));
    assert_eq!(p.copied, u64::MAX);
}
