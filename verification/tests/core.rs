use joshuto::cache::DirectoryCache;
use joshuto::conflict::{decimal_string, find_name, ConflictResolver};
use joshuto::error::{IoFailure, IoKind, TransferError};
use joshuto::fs::{DirEntryInfo, DirList, DirScan, FileKind, SortKey, SortOption};
use joshuto::selection::SelectionStore;
use joshuto::text::text_precedes;
use joshuto::transfer::{Outcome, Phase, TransferEngine};
use joshuto::worker::{paste_cut, TransferWorker, WorkerState};

fn names(list: &[&str]) -> Vec<String> {
    list.iter().map(|s| s.to_string()).collect()
}

fn sort() -> SortOption {
    SortOption { key: SortKey::Name, reverse: false, directories_first: true }
}

fn file(name: &str, dir: &str, len: u64) -> DirEntryInfo {
    DirEntryInfo {
        name: name.to_string(),
        path: format!("{}/{}", dir, name),
        kind: FileKind::File,
        len,
        modified: 7,
        mode: 0o644,
        link_target: None,
        mimetype: None,
    }
}

fn scan_of(modified: u64, entries: Vec<DirEntryInfo>) -> Result<DirScan, IoFailure> {
    Ok(DirScan { modified, entries })
}

fn denied(path: &str) -> IoFailure {
    IoFailure { kind: IoKind::PermissionDenied, path: path.to_string() }
}

#[test]
fn take_hands_out_the_selection_once() {
    let mut store = SelectionStore::new();
    assert!(!store.is_marked());
    store.mark(names(&["/src/a.txt", "/src/b.txt"]));
    assert!(store.is_marked());
    assert_eq!(store.take(), Some(names(&["/src/a.txt", "/src/b.txt"])));
    assert_eq!(store.take(), None);
    assert!(!store.is_marked());
}

#[test]
fn take_without_mark_is_absent() {
    let mut store = SelectionStore::new();
    assert_eq!(store.take(), None);
}

#[test]
fn mark_replaces_the_selection() {
    let mut store = SelectionStore::new();
    store.mark(names(&["/a"]));
    store.mark(names(&["/b", "/c"]));
    assert_eq!(store.take(), Some(names(&["/b", "/c"])));
}

#[test]
fn mark_of_nothing_is_still_a_selection() {
    let mut store = SelectionStore::new();
    store.mark(Vec::new());
    assert_eq!(store.take(), Some(Vec::new()));
}

#[test]
fn resolve_keeps_a_free_name() {
    let existing = names(&["a.txt", "c.txt"]);
    assert_eq!(ConflictResolver::resolve("b.txt", &existing), "b.txt");
    assert_eq!(ConflictResolver::resolve("b.txt", &Vec::new()), "b.txt");
}

#[test]
fn resolve_numbers_a_taken_name() {
    let existing = names(&["a.txt", "b.txt"]);
    let name = ConflictResolver::resolve("a.txt", &existing);
    assert_eq!(name, "a.txt_1");
    assert!(!existing.contains(&name));
    assert_ne!(name, "a.txt");
}

#[test]
fn resolve_takes_the_first_free_counter() {
    let existing = names(&["a", "a_1", "a_2", "a_4"]);
    assert_eq!(ConflictResolver::resolve("a", &existing), "a_3");
}

#[test]
fn resolve_counts_past_nine() {
    let mut existing = names(&["f"]);
    for i in 1..=10 {
        existing.push(format!("f_{}", i));
    }
    assert_eq!(ConflictResolver::resolve("f", &existing), "f_11");
}

#[test]
fn resolve_with_repeated_names() {
    let existing = names(&["x", "x", "x_1", "x_1"]);
    assert_eq!(ConflictResolver::resolve("x", &existing), "x_2");
}

#[test]
fn resolve_of_the_empty_name() {
    let existing = names(&[""]);
    assert_eq!(ConflictResolver::resolve("", &existing), "_1");
}

#[test]
fn decimal_string_writes_base_ten() {
    assert_eq!(decimal_string(0), "0");
    assert_eq!(decimal_string(7), "7");
    assert_eq!(decimal_string(10), "10");
    assert_eq!(decimal_string(12345), "12345");
    assert_eq!(decimal_string(9876543210), "9876543210");
}

#[test]
fn find_name_gives_the_first_place() {
    let existing = names(&["a", "b", "a"]);
    assert_eq!(find_name(&existing, "a"), Some(0));
    assert_eq!(find_name(&existing, "b"), Some(1));
    assert_eq!(find_name(&existing, "c"), None);
}

#[test]
fn soft_update_lists_a_new_path() {
    let mut cache = DirectoryCache::new();
    assert!(cache.get("/src").is_none());
    assert!(cache.needs_scan("/src", 1, 0));
    let done = cache.create_or_soft_update("/src", scan_of(5, vec![file("a", "/src", 1)]), sort());
    assert_eq!(done, Ok(()));
    let list: &DirList = cache.get("/src").unwrap();
    assert_eq!(list.modified, 5);
    assert_eq!(list.entries, vec![file("a", "/src", 1)]);
    assert_eq!(list.index, Some(0));
    assert_eq!(list.sort, sort());
}

#[test]
fn soft_update_twice_leaves_the_entry() {
    let mut cache = DirectoryCache::new();
    let entries = vec![file("a", "/src", 1), file("b", "/src", 2)];
    cache.create_or_soft_update("/src", scan_of(5, entries.clone()), sort()).unwrap();
    let first = format!("{:?}", cache.get("/src").unwrap());
    cache.create_or_soft_update("/src", scan_of(5, entries.clone()), sort()).unwrap();
    let second = format!("{:?}", cache.get("/src").unwrap());
    assert_eq!(first, second);
    assert!(!cache.needs_scan("/src", 5, 2));
}

#[test]
fn soft_update_keeps_a_fresh_entry() {
    let mut cache = DirectoryCache::new();
    cache.create_or_soft_update("/src", scan_of(5, vec![file("a", "/src", 1)]), sort()).unwrap();
    cache.create_or_soft_update("/src", scan_of(5, vec![file("z", "/src", 9)]), sort()).unwrap();
    assert_eq!(cache.get("/src").unwrap().entries, vec![file("a", "/src", 1)]);
}

#[test]
fn soft_update_refreshes_a_stale_entry() {
    let mut cache = DirectoryCache::new();
    cache.create_or_soft_update("/src", scan_of(5, vec![file("a", "/src", 1)]), sort()).unwrap();
    assert!(cache.needs_scan("/src", 6, 1));
    assert!(cache.needs_scan("/src", 5, 2));
    cache.create_or_soft_update("/src", scan_of(6, vec![file("z", "/src", 9)]), sort()).unwrap();
    assert_eq!(cache.get("/src").unwrap().entries, vec![file("z", "/src", 9)]);
    cache.create_or_soft_update("/src", scan_of(6, Vec::new()), sort()).unwrap();
    assert!(cache.get("/src").unwrap().entries.is_empty());
    assert_eq!(cache.get("/src").unwrap().index, None);
}

#[test]
fn reload_shows_the_disk_after_a_fresh_soft_update() {
    let mut cache = DirectoryCache::new();
    cache.create_or_soft_update("/src", scan_of(5, vec![file("a", "/src", 1)]), sort()).unwrap();
    cache.create_or_soft_update("/src", scan_of(5, vec![file("a", "/src", 1)]), sort()).unwrap();
    let done = cache.reload("/src", scan_of(5, vec![file("n", "/src", 3)]), sort());
    assert_eq!(done, Ok(()));
    assert_eq!(cache.get("/src").unwrap().entries, vec![file("n", "/src", 3)]);
}

#[test]
fn failed_scan_leaves_the_entry() {
    let mut cache = DirectoryCache::new();
    cache.reload("/src", scan_of(5, vec![file("a", "/src", 1)]), sort()).unwrap();
    assert_eq!(cache.reload("/src", Err(denied("/src")), sort()), Err(denied("/src")));
    assert_eq!(
        cache.create_or_soft_update("/src", Err(denied("/src")), sort()),
        Err(denied("/src"))
    );
    assert_eq!(cache.get("/src").unwrap().entries, vec![file("a", "/src", 1)]);
    assert_eq!(cache.reload("/gone", Err(denied("/gone")), sort()), Err(denied("/gone")));
    assert!(cache.get("/gone").is_none());
}

#[test]
fn reload_leaves_other_paths() {
    let mut cache = DirectoryCache::new();
    cache.reload("/a", scan_of(1, vec![file("x", "/a", 1)]), sort()).unwrap();
    cache.reload("/b", scan_of(2, vec![file("y", "/b", 2)]), sort()).unwrap();
    assert_eq!(cache.get("/a").unwrap().entries, vec![file("x", "/a", 1)]);
    assert_eq!(cache.get("/b").unwrap().modified, 2);
}

#[test]
fn renamed_file_counts_its_length() {
    let mut phase = TransferEngine::start();
    assert_eq!(phase, Phase::Inspect);
    phase = TransferEngine::advance(phase, Outcome::Inspected { kind: FileKind::File, len: 10 });
    assert_eq!(phase, Phase::RenameFile { len: 10 });
    phase = TransferEngine::advance(phase, Outcome::Succeeded);
    assert_eq!(phase, Phase::Done { total: 10 });
    assert!(TransferEngine::finished(phase));
    assert_eq!(TransferEngine::bytes_moved(phase), Some(10));
}

#[test]
fn copied_file_counts_its_length() {
    let mut phase = Phase::RenameFile { len: 42 };
    phase = TransferEngine::advance(phase, Outcome::Failed);
    assert_eq!(phase, Phase::CopyFile { len: 42 });
    phase = TransferEngine::advance(phase, Outcome::Succeeded);
    assert_eq!(phase, Phase::RemoveFile { len: 42 });
    phase = TransferEngine::advance(phase, Outcome::Succeeded);
    assert_eq!(phase, Phase::Done { total: 42 });
}

#[test]
fn directory_across_devices() {
    let mut phase = TransferEngine::start();
    phase = TransferEngine::advance(phase, Outcome::Inspected { kind: FileKind::Directory, len: 33 });
    assert_eq!(phase, Phase::RenameDir { bytes: 33 });
    phase = TransferEngine::advance(phase, Outcome::Failed);
    assert_eq!(phase, Phase::CreateDir);
    phase = TransferEngine::advance(phase, Outcome::Succeeded);
    assert_eq!(phase, Phase::Children { total: 0 });
    assert!(!TransferEngine::finished(phase));
    phase = TransferEngine::advance(phase, Outcome::ChildMoved { bytes: 33 });
    assert_eq!(phase, Phase::Children { total: 33 });
    phase = TransferEngine::advance(phase, Outcome::Succeeded);
    assert_eq!(phase, Phase::RemoveDir { total: 33 });
    phase = TransferEngine::advance(phase, Outcome::Succeeded);
    assert_eq!(phase, Phase::Done { total: 33 });
}

#[test]
fn renamed_directory_counts_its_files() {
    let phase = TransferEngine::advance(Phase::RenameDir { bytes: 99 }, Outcome::Succeeded);
    assert_eq!(phase, Phase::Done { total: 99 });
}

#[test]
fn children_add_up_and_saturate() {
    let mut phase = Phase::Children { total: 3 };
    phase = TransferEngine::advance(phase, Outcome::ChildMoved { bytes: 4 });
    phase = TransferEngine::advance(phase, Outcome::ChildMoved { bytes: 0 });
    assert_eq!(phase, Phase::Children { total: 7 });
    phase = TransferEngine::advance(phase, Outcome::ChildMoved { bytes: u64::MAX });
    assert_eq!(phase, Phase::Children { total: u64::MAX });
}

#[test]
fn failed_child_aborts_the_directory() {
    let phase = TransferEngine::advance(Phase::Children { total: 5 }, Outcome::Failed);
    assert_eq!(phase, Phase::Failed);
    assert!(TransferEngine::finished(phase));
    assert_eq!(TransferEngine::bytes_moved(phase), None);
    assert_eq!(TransferEngine::advance(phase, Outcome::Succeeded), Phase::Failed);
}

#[test]
fn link_is_recreated_and_counts_nothing() {
    let mut phase = TransferEngine::advance(
        Phase::Inspect,
        Outcome::Inspected { kind: FileKind::Symlink, len: 17 },
    );
    assert_eq!(phase, Phase::ReadLink);
    phase = TransferEngine::advance(phase, Outcome::Succeeded);
    assert_eq!(phase, Phase::MakeLink);
    phase = TransferEngine::advance(phase, Outcome::Succeeded);
    assert_eq!(phase, Phase::RemoveLink);
    phase = TransferEngine::advance(phase, Outcome::Succeeded);
    assert_eq!(phase, Phase::Done { total: 0 });
}

#[test]
fn other_entries_are_left_alone() {
    let phase = TransferEngine::advance(
        Phase::Inspect,
        Outcome::Inspected { kind: FileKind::Other, len: 5 },
    );
    assert_eq!(phase, Phase::Done { total: 0 });
}

#[test]
fn every_failure_but_a_rename_aborts() {
    for phase in [
        Phase::Inspect,
        Phase::CreateDir,
        Phase::RemoveDir { total: 1 },
        Phase::CopyFile { len: 1 },
        Phase::RemoveFile { len: 1 },
        Phase::ReadLink,
        Phase::MakeLink,
        Phase::RemoveLink,
    ] {
        assert_eq!(TransferEngine::advance(phase, Outcome::Failed), Phase::Failed);
    }
    assert_eq!(
        TransferEngine::advance(Phase::Done { total: 2 }, Outcome::Failed),
        Phase::Done { total: 2 }
    );
    assert_eq!(TransferEngine::advance(Phase::CreateDir, Outcome::ChildMoved { bytes: 1 }), Phase::Failed);
}

#[test]
fn cut_of_two_files_into_a_directory_that_has_one() {
    let mut store = SelectionStore::new();
    store.mark(names(&["/src/a.txt", "/src/b.txt"]));
    let mut worker = paste_cut(&mut store, "/dst".to_string()).ok().unwrap();
    assert_eq!(store.take(), None);
    assert_eq!(worker.status(), WorkerState::Scheduled);
    assert_eq!(worker.destination(), "/dst");
    assert_eq!(worker.selected(), &names(&["/src/a.txt", "/src/b.txt"]));
    assert_eq!(worker.current(), None);
    assert!(worker.begin());
    assert!(!worker.begin());
    assert_eq!(worker.status(), WorkerState::Running);

    let mut in_dst = names(&["a.txt"]);
    let mut progress = Vec::new();
    for (name, len) in [("a.txt", 10u64), ("b.txt", 5u64)] {
        assert_eq!(worker.current(), Some(&format!("/src/{}", name)));
        let target = ConflictResolver::resolve(name, &in_dst);
        let mut phase = TransferEngine::start();
        phase = TransferEngine::advance(phase, Outcome::Inspected { kind: FileKind::File, len });
        phase = TransferEngine::advance(phase, Outcome::Succeeded);
        in_dst.push(target);
        let bytes = TransferEngine::bytes_moved(phase).unwrap();
        progress.push(worker.entry_finished(Ok(bytes)).unwrap());
    }
    assert_eq!(in_dst, names(&["a.txt", "a.txt_1", "b.txt"]));
    assert_eq!(progress, vec![10, 15]);
    assert_eq!(worker.progress(), 15);
    assert_eq!(worker.status(), WorkerState::Done);
    assert_eq!(worker.join(), Some(Ok(15)));
}

#[test]
fn paste_cut_without_selection() {
    let mut store = SelectionStore::new();
    assert_eq!(paste_cut(&mut store, "/dst".to_string()).err(), Some(TransferError::SelectionEmpty));
    store.mark(Vec::new());
    assert_eq!(paste_cut(&mut store, "/dst".to_string()).err(), Some(TransferError::SelectionEmpty));
    assert_eq!(store.take(), None);
}

#[test]
fn cancel_before_start_reports_zero() {
    let mut worker = TransferWorker::new("/dst".to_string(), names(&["/src/a"]));
    assert_eq!(worker.progress(), 0);
    assert!(worker.cancel());
    assert!(!worker.begin());
    assert_eq!(worker.entry_finished(Ok(9)), None);
    assert_eq!(worker.join(), Some(Ok(0)));
}

#[test]
fn cancel_after_start_changes_nothing() {
    let mut worker = TransferWorker::new("/dst".to_string(), names(&["/src/a"]));
    worker.begin();
    assert!(!worker.cancel());
    assert_eq!(worker.status(), WorkerState::Running);
    assert_eq!(worker.entry_finished(Ok(9)), Some(9));
    assert_eq!(worker.join(), Some(Ok(9)));
}

#[test]
fn worker_without_entries_is_done_at_once() {
    let mut worker = TransferWorker::new("/dst".to_string(), Vec::new());
    assert!(worker.begin());
    assert_eq!(worker.status(), WorkerState::Done);
    assert_eq!(worker.join(), Some(Ok(0)));
}

#[test]
fn join_before_the_end_is_absent() {
    let mut worker = TransferWorker::new("/dst".to_string(), names(&["/src/a", "/src/b"]));
    worker.begin();
    worker.entry_finished(Ok(1));
    assert_eq!(worker.status(), WorkerState::Running);
    assert_eq!(worker.join(), None);
}

#[test]
fn failed_entry_ends_the_worker() {
    let mut worker = TransferWorker::new("/dst".to_string(), names(&["/src/a", "/src/b"]));
    worker.begin();
    assert_eq!(worker.entry_finished(Ok(4)), Some(4));
    assert_eq!(worker.entry_finished(Err(denied("/src/b"))), None);
    assert_eq!(worker.progress(), 4);
    assert_eq!(worker.status(), WorkerState::Done);
    assert_eq!(worker.join(), Some(Err(TransferError::Io(denied("/src/b")))));
}

#[test]
fn crashed_worker_reports_a_fault() {
    let mut worker = TransferWorker::new("/dst".to_string(), names(&["/src/a"]));
    worker.begin();
    worker.crashed();
    assert_eq!(worker.join(), Some(Err(TransferError::WorkerFault)));
    let mut done = TransferWorker::new("/dst".to_string(), names(&["/src/a"]));
    done.begin();
    done.entry_finished(Ok(3));
    done.crashed();
    assert_eq!(done.join(), Some(Ok(3)));
}

#[test]
fn worker_total_saturates() {
    let mut worker = TransferWorker::new("/dst".to_string(), names(&["/a", "/b"]));
    worker.begin();
    assert_eq!(worker.entry_finished(Ok(u64::MAX)), Some(u64::MAX));
    assert_eq!(worker.entry_finished(Ok(1)), Some(u64::MAX));
    assert_eq!(worker.join(), Some(Ok(u64::MAX)));
}

#[test]
fn error_messages() {
    assert_eq!(TransferError::SelectionEmpty.message(), "no files selected");
    assert_eq!(TransferError::Io(denied("/x")).message(), "filesystem operation failed");
    assert_eq!(TransferError::WorkerFault.message(), "transfer worker crashed");
}

fn tree_file(name: &str, len: u64) -> joshuto::tree::FsEntry {
    joshuto::tree::FsEntry::File { name: name.to_string(), len }
}

fn tree_link(name: &str, target: &str) -> joshuto::tree::FsEntry {
    joshuto::tree::FsEntry::Symlink { name: name.to_string(), target: target.to_string() }
}

fn tree_dir(name: &str, entries: Vec<joshuto::tree::FsEntry>) -> joshuto::tree::FsEntry {
    joshuto::tree::FsEntry::Directory { name: name.to_string(), entries }
}

#[test]
fn directory_with_one_file_across_devices() {
    let mut dst = Vec::new();
    let bytes = joshuto::tree::recursive_cut(&mut dst, tree_dir("dir", vec![tree_file("f", 33)]), false);
    assert_eq!(bytes, 33);
    assert_eq!(dst, vec![tree_dir("dir", vec![tree_file("f", 33)])]);
}

#[test]
fn whole_tree_arrives_in_an_empty_directory() {
    let tree = || {
        tree_dir(
            "top",
            vec![
                tree_file("a", 10),
                tree_link("l", "/etc/hosts"),
                tree_dir("sub", vec![tree_file("b", 5), tree_dir("empty", Vec::new())]),
                tree_file("c", 0),
            ],
        )
    };
    assert_eq!(tree().count_bytes(), 15);
    for same_device in [true, false] {
        let mut dst = Vec::new();
        assert_eq!(joshuto::tree::recursive_cut(&mut dst, tree(), same_device), 15);
        assert_eq!(dst, vec![tree()]);
    }
}

#[test]
fn tree_entry_takes_a_free_name() {
    let mut dst = vec![tree_file("a.txt", 1), tree_link("a.txt_1", "x")];
    assert_eq!(joshuto::tree::recursive_cut(&mut dst, tree_file("a.txt", 10), true), 10);
    assert_eq!(joshuto::tree::recursive_cut(&mut dst, tree_file("b.txt", 5), false), 5);
    assert_eq!(joshuto::tree::recursive_cut(&mut dst, tree_link("b.txt", "t"), false), 0);
    assert_eq!(
        dst,
        vec![
            tree_file("a.txt", 1),
            tree_link("a.txt_1", "x"),
            tree_file("a.txt_2", 10),
            tree_file("b.txt", 5),
            tree_link("b.txt_1", "t"),
        ]
    );
    assert_eq!(
        joshuto::tree::names_of(&dst),
        vec!["a.txt", "a.txt_1", "a.txt_2", "b.txt", "b.txt_1"]
    );
    assert_eq!(dst[2].name(), "a.txt_2");
    assert_eq!(dst[4].kind(), FileKind::Symlink);
}

#[test]
fn tree_bytes_are_capped() {
    let big = tree_dir("d", vec![tree_file("x", u64::MAX), tree_file("y", 2)]);
    assert_eq!(big.count_bytes(), u64::MAX);
    let mut dst = Vec::new();
    assert_eq!(joshuto::tree::recursive_cut(&mut dst, big, false), u64::MAX);
}

fn sized(name: &str, kind: FileKind, len: u64, modified: u64) -> DirEntryInfo {
    let mut e = file(name, "/d", len);
    e.kind = kind;
    e.modified = modified;
    e
}

fn listed(entries: &[DirEntryInfo]) -> Vec<&str> {
    entries.iter().map(|e| e.name.as_str()).collect()
}

fn mixed() -> Vec<DirEntryInfo> {
    vec![
        sized("b", FileKind::File, 30, 1),
        sized("zdir", FileKind::Directory, 5, 9),
        sized("a", FileKind::Symlink, 10, 3),
        sized("adir", FileKind::Directory, 50, 2),
        sized("B", FileKind::File, 20, 4),
    ]
}

#[test]
fn text_order_is_by_code_point() {
    assert!(text_precedes("", ""));
    assert!(text_precedes("", "a"));
    assert!(!text_precedes("a", ""));
    assert!(text_precedes("a", "a"));
    assert!(text_precedes("a", "ab"));
    assert!(!text_precedes("ab", "a"));
    assert!(text_precedes("B", "a"));
    assert!(!text_precedes("a", "B"));
    assert!(text_precedes("z", "é"));
    assert!(!text_precedes("é", "z"));
    assert!(text_precedes("ab", "ac"));
    for (a, b) in [("x", "y"), ("é", "e"), ("", "q"), ("same", "same"), ("a\u{10000}", "a\u{ffff}")] {
        assert_eq!(text_precedes(a, b), a <= b);
        assert_eq!(text_precedes(b, a), b <= a);
    }
}

#[test]
fn sort_texts_orders_and_keeps_every_string() {
    let sorted = joshuto::text::sort_texts(names(&["b", "a", "c", "a", "", "B"]));
    assert_eq!(sorted, names(&["", "B", "a", "a", "b", "c"]));
    assert_eq!(joshuto::text::sort_texts(Vec::new()), Vec::<String>::new());
}

#[test]
fn entries_sorted_by_name() {
    let by_name = SortOption { key: SortKey::Name, reverse: false, directories_first: false };
    let sorted = joshuto::sort::sort_entries(mixed(), by_name);
    assert_eq!(listed(&sorted), vec!["B", "a", "adir", "b", "zdir"]);
    let dirs_first = SortOption { key: SortKey::Name, reverse: false, directories_first: true };
    let sorted = joshuto::sort::sort_entries(mixed(), dirs_first);
    assert_eq!(listed(&sorted), vec!["adir", "zdir", "B", "a", "b"]);
    let reversed = SortOption { key: SortKey::Name, reverse: true, directories_first: true };
    let sorted = joshuto::sort::sort_entries(mixed(), reversed);
    assert_eq!(listed(&sorted), vec!["zdir", "adir", "b", "a", "B"]);
}

#[test]
fn entries_sorted_by_size_and_time() {
    let by_size = SortOption { key: SortKey::Size, reverse: false, directories_first: false };
    assert_eq!(
        listed(&joshuto::sort::sort_entries(mixed(), by_size)),
        vec!["zdir", "a", "B", "b", "adir"]
    );
    let by_time = SortOption { key: SortKey::Modified, reverse: true, directories_first: false };
    assert_eq!(
        listed(&joshuto::sort::sort_entries(mixed(), by_time)),
        vec!["zdir", "B", "a", "adir", "b"]
    );
    assert!(joshuto::sort::precedes(&mixed()[1], &mixed()[0], by_size));
    assert!(!joshuto::sort::precedes(&mixed()[0], &mixed()[1], by_size));
    assert!(joshuto::sort::precedes(&mixed()[0], &mixed()[0], by_time));
}

#[test]
fn scan_is_ordered_when_it_is_made() {
    let by_size = SortOption { key: SortKey::Size, reverse: true, directories_first: true };
    let scan = DirScan::new(8, mixed(), by_size);
    assert_eq!(scan.modified, 8);
    assert_eq!(listed(&scan.entries), vec!["adir", "zdir", "b", "B", "a"]);
    let mut cache = DirectoryCache::new();
    cache.reload("/d", Ok(scan), by_size).unwrap();
    assert_eq!(listed(&cache.get("/d").unwrap().entries), vec!["adir", "zdir", "b", "B", "a"]);
}
