use storify::copy::{
    directory_marker, plan_entry, plan_single, plan_transfer, plan_tree, render_completion,
    start_transfer, EntryAction, TransferMode, TransferPlan, TransferTask,
};
use storify::entry::StorageEntry;
use storify::error::Error;
use storify::transfer::TransferStep;

fn tree_a() -> Vec<StorageEntry> {
    vec![
        StorageEntry::directory("a/".to_string()),
        StorageEntry::file("a/x.txt".to_string(), 10),
        StorageEntry::directory("a/sub/".to_string()),
        StorageEntry::file("a/sub/y.txt".to_string(), 5),
    ]
}

fn transfer(source: &str, destination: &str, size_hint: u64, delete_source: bool) -> EntryAction {
    EntryAction::Transfer {
        task: TransferTask {
            source: source.to_string(),
            destination: destination.to_string(),
            size_hint,
        },
        delete_source,
    }
}

#[test]
fn copy_tree_into_existing_directory_nests_under_it() {
    let plan = plan_transfer("a", "b/", true, true, true).unwrap();
    assert_eq!(plan, TransferPlan::Tree { target_root: "b/a".to_string() });
    let actions = plan_tree(TransferMode::Copy, "a", "b/a", &tree_a());
    assert_eq!(
        actions,
        vec![
            EntryAction::CreateDirectory { path: "b/a/".to_string() },
            EntryAction::Skip,
            transfer("a/x.txt", "b/a/x.txt", 10, false),
            EntryAction::CreateDirectory { path: "b/a/sub/".to_string() },
            transfer("a/sub/y.txt", "b/a/sub/y.txt", 5, false),
        ]
    );
}

#[test]
fn copy_leaves_every_source_in_place() {
    let actions = plan_tree(TransferMode::Copy, "a", "b/a", &tree_a());
    for action in actions {
        if let EntryAction::Transfer { delete_source, .. } = action {
            assert!(!delete_source);
        }
    }
}

#[test]
fn move_tree_to_new_name_renames_and_deletes_sources() {
    let plan = plan_transfer("a", "c", true, true, false).unwrap();
    assert_eq!(plan, TransferPlan::Tree { target_root: "c".to_string() });
    let actions = plan_tree(TransferMode::Move, "a", "c", &tree_a());
    assert_eq!(
        actions,
        vec![
            EntryAction::CreateDirectory { path: "c/".to_string() },
            EntryAction::Skip,
            transfer("a/x.txt", "c/x.txt", 10, true),
            EntryAction::CreateDirectory { path: "c/sub/".to_string() },
            transfer("a/sub/y.txt", "c/sub/y.txt", 5, true),
        ]
    );
    let moved: Vec<String> = tree_a()
        .into_iter()
        .filter(|e| !e.is_directory)
        .map(|e| e.key)
        .collect();
    let deleted: Vec<String> = plan_tree(TransferMode::Move, "a", "c", &tree_a())
        .into_iter()
        .filter_map(|a| match a {
            EntryAction::Transfer { task, delete_source: true } => Some(task.source),
            _ => None,
        })
        .collect();
    assert_eq!(moved, deleted);
}

#[test]
fn missing_source_is_an_invalid_path() {
    let r = plan_transfer("nope", "b", false, false, false);
    assert_eq!(r, Err(Error::InvalidPath { path: "nope".to_string() }));
    let r = plan_transfer("nope", "b/", false, false, true);
    assert_eq!(r, Err(Error::InvalidPath { path: "nope".to_string() }));
}

#[test]
fn virtual_directory_source_counts_as_existing() {
    let r = plan_transfer("a", "b", false, true, false);
    assert_eq!(r, Ok(TransferPlan::Tree { target_root: "b".to_string() }));
}

#[test]
fn file_into_path_with_directory_hint_that_is_no_directory_is_invalid() {
    let r = plan_transfer("a/x.txt", "nodir/", true, false, false);
    assert_eq!(r, Err(Error::InvalidPath { path: "nodir/".to_string() }));
}

#[test]
fn file_into_existing_directory_keeps_its_name() {
    let r = plan_transfer("a/x.txt", "b", true, false, true);
    assert_eq!(r, Ok(TransferPlan::Single { destination: "b/x.txt".to_string() }));
    let r = plan_transfer("a/x.txt", "b/", true, false, true);
    assert_eq!(r, Ok(TransferPlan::Single { destination: "b/x.txt".to_string() }));
}

#[test]
fn file_to_plain_destination_is_renamed() {
    let r = plan_transfer("a/x.txt", "b/y.txt", true, false, false);
    assert_eq!(r, Ok(TransferPlan::Single { destination: "b/y.txt".to_string() }));
}

#[test]
fn root_marker_is_skipped_whatever_its_delimiters() {
    for key in ["a", "a/", "/a/", "/a"] {
        for root in ["a", "a/", "/a"] {
            let entry = StorageEntry::directory(key.to_string());
            assert_eq!(plan_entry(TransferMode::Copy, root, "t", &entry), EntryAction::Skip);
        }
    }
    let file = StorageEntry::file("a".to_string(), 3);
    assert_eq!(plan_entry(TransferMode::Copy, "a", "t", &file), transfer("a", "t/a", 3, false));
}

#[test]
fn entry_outside_the_source_falls_back_to_its_name() {
    let stray = StorageEntry::file("other/z.bin".to_string(), 1);
    assert_eq!(
        plan_entry(TransferMode::Copy, "a", "t", &stray),
        transfer("other/z.bin", "t/z.bin", 1, false)
    );
}

#[test]
fn directory_marker_ends_with_one_delimiter() {
    assert_eq!(directory_marker("b/a"), "b/a/");
    assert_eq!(directory_marker("b/a/"), "b/a/");
}

#[test]
fn single_object_plan_deletes_only_when_moving() {
    assert_eq!(plan_single(TransferMode::Copy, "s", "d", 7), transfer("s", "d", 7, false));
    assert_eq!(plan_single(TransferMode::Move, "s", "d", 7), transfer("s", "d", 7, true));
}

#[test]
fn transfer_of_a_task_reads_by_chunks_of_a_mebibyte() {
    let task = TransferTask {
        source: "a/x.txt".to_string(),
        destination: "b/x.txt".to_string(),
        size_hint: 3 * 1048576 + 17,
    };
    let (mut t, reporter) = start_transfer(TransferMode::Copy, &task);
    let mut reads = Vec::new();
    loop {
        match t.next_step() {
            TransferStep::Read { offset, len } => {
                reads.push((offset, len));
                t.record_read(len);
            }
            TransferStep::Close => break,
        }
    }
    assert_eq!(
        reads,
        vec![(0, 1048576), (1048576, 1048576), (2097152, 1048576), (3145728, 17)]
    );
    assert_eq!(t.transferred, task.size_hint);
    assert_eq!(
        reporter.maybe_report(1048576),
        Some("\r Copying a/x.txt: 33%".to_string())
    );
    assert_eq!(reporter.maybe_report(17), None);
}

#[test]
fn completion_line_names_both_ends_and_the_bytes() {
    let task = TransferTask {
        source: "a/x.txt".to_string(),
        destination: "b/x.txt".to_string(),
        size_hint: 10,
    };
    assert_eq!(
        render_completion(TransferMode::Copy, &task, 10),
        "\n✅ Copied: a/x.txt → b/x.txt (10 bytes)"
    );
    assert_eq!(
        render_completion(TransferMode::Move, &task, 10),
        "\n✅ Moved: a/x.txt → b/x.txt (10 bytes)"
    );
}
