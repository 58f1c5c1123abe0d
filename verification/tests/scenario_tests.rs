use std::collections::BTreeMap;

use storify::copy::{
    plan_single, plan_transfer, plan_tree, EntryAction, TransferMode, TransferPlan,
};
use storify::delete::{DeleteRun, DeleteStep};
use storify::download::{plan_download, DownloadStep};
use storify::entry::{EntryMode, StorageEntry};
use storify::error::Error;
use storify::resolve::{check_directory, probe_result, DirectoryCheck};
use storify::schedule::schedule;
use storify::storage::StorageProvider;
use storify::transfer::{Transfer, TransferStep};
use storify::usage::{calculate_usage, summarize};

/// A flat key space held in memory: keys that end with `/` are directory
/// markers.
struct Store {
    objects: BTreeMap<String, Vec<u8>>,
}

impl Store {
    fn with(files: &[(&str, usize)]) -> Store {
        let mut objects = BTreeMap::new();
        for (i, (key, size)) in files.iter().enumerate() {
            let content: Vec<u8> = (0..*size).map(|b| (b + 7 * i) as u8).collect();
            objects.insert(key.to_string(), content);
        }
        Store { objects }
    }

    fn keys(&self) -> Vec<String> {
        self.objects.keys().cloned().collect()
    }

    fn stat(&self, path: &str) -> Option<EntryMode> {
        if path.ends_with('/') {
            let has = self.objects.keys().any(|k| k.starts_with(path));
            return if has { Some(EntryMode::Dir) } else { None };
        }
        self.objects.get(path).map(|_| EntryMode::File)
    }

    fn list(&self, prefix: &str) -> Vec<StorageEntry> {
        self.objects
            .iter()
            .filter(|(k, _)| k.starts_with(prefix))
            .map(|(k, v)| {
                if k.ends_with('/') {
                    StorageEntry::directory(k.clone())
                } else {
                    StorageEntry::file(k.clone(), v.len() as u64)
                }
            })
            .collect()
    }

    fn is_directory(&self, path: &str) -> bool {
        match check_directory(path, self.stat(path)) {
            DirectoryCheck::Directory => true,
            DirectoryCheck::NotDirectory => false,
            DirectoryCheck::Probe { prefix } => {
                probe_result(Some(self.list(&prefix).into_iter().take(1).count()))
            }
        }
    }

    fn stream(&mut self, source: &str, destination: &str, chunk: u64) {
        let data = self.objects.get(source).cloned().unwrap();
        let mut written = Vec::new();
        let mut transfer = Transfer::ranged(data.len() as u64, chunk);
        while let TransferStep::Read { offset, len } = transfer.next_step() {
            assert!(len <= chunk);
            let piece = &data[offset as usize..(offset + len) as usize];
            written.extend_from_slice(piece);
            transfer.record_read(piece.len() as u64);
        }
        assert_eq!(transfer.transferred, data.len() as u64);
        self.objects.insert(destination.to_string(), written);
    }

    fn perform(&mut self, action: EntryAction) {
        match action {
            EntryAction::Skip => {}
            EntryAction::CreateDirectory { path } => {
                self.objects.entry(path).or_default();
            }
            EntryAction::Transfer { task, delete_source } => {
                self.stream(&task.source, &task.destination, 4);
                if delete_source {
                    self.objects.remove(&task.source);
                }
            }
        }
    }

    fn transfer(&mut self, mode: TransferMode, src: &str, dest: &str) -> Result<(), Error> {
        let src_exists = self.stat(src).is_some();
        let src_is_dir = self.is_directory(src);
        let dest_is_dir = self.is_directory(dest);
        match plan_transfer(src, dest, src_exists, src_is_dir, dest_is_dir)? {
            TransferPlan::Tree { target_root } => {
                let prefix = format!("{}/", src.trim_end_matches('/'));
                let entries = self.list(&prefix);
                let actions = plan_tree(mode, src, &target_root, &entries);
                let waves = schedule(&actions, 2);
                let mut remaining = actions.into_iter();
                for wave in waves {
                    for action in remaining.by_ref().take(wave.end - wave.start) {
                        self.perform(action);
                    }
                }
            }
            TransferPlan::Single { destination } => {
                let size = self.objects[src].len() as u64;
                self.perform(plan_single(mode, src, &destination, size));
            }
        }
        Ok(())
    }

    fn delete(&mut self, paths: &[&str], recursive: bool) -> Result<(), Error> {
        let mut run = DeleteRun::new(recursive);
        for path in paths {
            let stat = if self.is_directory(path) {
                Some(EntryMode::Dir)
            } else {
                self.stat(path)
            };
            match run.check(path, stat)? {
                DeleteStep::Skip => {}
                DeleteStep::Remove => {
                    let prefix = format!("{}/", path.trim_end_matches('/'));
                    self.objects
                        .retain(|k, _| k != path && !k.starts_with(&prefix));
                    run.record_removal(path, true);
                }
            }
        }
        run.finish()
    }
}

fn tree() -> Store {
    Store::with(&[("a/x.txt", 10), ("a/sub/y.txt", 5), ("b/", 0)])
}

#[test]
fn copy_tree_into_existing_directory_keeps_content_and_source() {
    let mut store = tree();
    let before = tree();
    store.transfer(TransferMode::Copy, "a", "b/").unwrap();
    assert_eq!(
        store.keys(),
        vec!["a/sub/y.txt", "a/x.txt", "b/", "b/a/", "b/a/sub/y.txt", "b/a/x.txt"]
    );
    assert_eq!(store.objects["b/a/x.txt"], before.objects["a/x.txt"]);
    assert_eq!(store.objects["b/a/sub/y.txt"], before.objects["a/sub/y.txt"]);
    assert_eq!(store.objects["b/a/x.txt"].len(), 10);
    assert_eq!(store.objects["b/a/sub/y.txt"].len(), 5);
    assert_eq!(store.objects["a/x.txt"], before.objects["a/x.txt"]);
    assert_eq!(store.objects["a/sub/y.txt"], before.objects["a/sub/y.txt"]);
}

#[test]
fn move_tree_to_new_name_leaves_nothing_under_the_source() {
    let mut store = tree();
    let before = tree();
    store.transfer(TransferMode::Move, "a", "c").unwrap();
    assert_eq!(store.keys(), vec!["b/", "c/", "c/sub/y.txt", "c/x.txt"]);
    assert_eq!(store.objects["c/x.txt"], before.objects["a/x.txt"]);
    assert_eq!(store.objects["c/sub/y.txt"], before.objects["a/sub/y.txt"]);
    assert!(store.list("a/").is_empty());
}

#[test]
fn copy_of_a_single_file_into_a_directory() {
    let mut store = tree();
    store.transfer(TransferMode::Copy, "a/x.txt", "b").unwrap();
    assert_eq!(store.objects["b/x.txt"], store.objects["a/x.txt"]);
    assert_eq!(
        store.transfer(TransferMode::Copy, "a/x.txt", "nowhere/"),
        Err(Error::InvalidPath { path: "nowhere/".to_string() })
    );
    assert_eq!(
        store.transfer(TransferMode::Copy, "missing", "b"),
        Err(Error::InvalidPath { path: "missing".to_string() })
    );
}

#[test]
fn move_of_a_single_file_renames_it() {
    let mut store = tree();
    let content = store.objects["a/x.txt"].clone();
    store.transfer(TransferMode::Move, "a/x.txt", "a/z.txt").unwrap();
    assert_eq!(store.objects["a/z.txt"], content);
    assert!(!store.objects.contains_key("a/x.txt"));
}

#[test]
fn delete_reports_the_missing_path_and_deletes_the_others() {
    let mut store = Store::with(&[("p1", 1), ("p3", 3), ("keep", 2)]);
    let r = store.delete(&["p1", "p2", "p3"], false);
    assert_eq!(r, Err(Error::PartialDeletion { failed_paths: vec!["p2".to_string()] }));
    assert_eq!(store.keys(), vec!["keep"]);
}

#[test]
fn delete_of_a_directory_needs_the_recursive_flag() {
    let mut store = tree();
    assert_eq!(
        store.delete(&["a/x.txt", "a"], false),
        Err(Error::DirectoryDeletionNotRecursive { path: "a".to_string() })
    );
    assert_eq!(store.keys(), vec!["a/sub/y.txt", "b/"]);
    assert_eq!(store.delete(&["a"], true), Ok(()));
    assert_eq!(store.keys(), vec!["b/"]);
}

#[test]
fn disk_usage_of_three_files() {
    let store = Store::with(&[("d/one", 1000), ("d/two", 2048), ("d/three", 3), ("d/sub/", 0)]);
    let entries = store.list("d/");
    let totals = summarize(&entries);
    assert_eq!(totals.total_size, 3051);
    assert_eq!(totals.file_count, 3);
    assert_eq!(
        calculate_usage("d", &entries, true),
        vec!["3.0K d".to_string(), "Total files: 3".to_string()]
    );
}

#[test]
fn download_of_missing_prefix_creates_nothing() {
    let store = tree();
    let entries = store.list("nothing/");
    let stat_found = store.stat("nothing/").is_some();
    let r = plan_download("nothing/", "out", stat_found, &entries);
    assert_eq!(r, Err(Error::PathNotFound { path: "nothing/".to_string() }));
}

#[test]
fn download_creates_directories_before_files() {
    let store = tree();
    let steps = plan_download("a/", "out", true, &store.list("a/")).unwrap();
    let mut made: Vec<String> = Vec::new();
    for step in steps {
        match step {
            DownloadStep::SkipMalformed { key } => panic!("unexpected skip of {key}"),
            DownloadStep::CreateDirectory { local_path } => made.push(local_path),
            DownloadStep::Fetch { local_path, parent, .. } => {
                let parent = parent.unwrap();
                assert!(local_path.starts_with(&format!("{parent}/")));
                made.push(parent);
            }
        }
    }
    assert_eq!(made, vec!["out/sub".to_string(), "out".to_string()]);
}

#[test]
fn provider_is_parsed_from_text() {
    assert_eq!("oss".parse::<StorageProvider>(), Ok(StorageProvider::Oss));
    assert_eq!("MINIO".parse::<StorageProvider>(), Ok(StorageProvider::S3));
    assert!("gcs".parse::<StorageProvider>().is_err());
}
