use std::collections::BTreeMap;

use dupers::digest::content_digest;
use dupers::path::{join_path, quarantine_path};
use dupers::scan::{
    after_copy, after_delete, classify_os_error, entry_step, EntryStep, FileAction, IoStatus,
    MetadataStatus, Scan, ScanError, ERROR_ACCESS_DENIED, ERROR_CLOUD_FILE_PROVIDER_NOT_RUNNING,
};

const HELLO_SHA256: &str = "2cf24dba5fb0a30e26e83b2ac5b9e29e1b161e5c1fa7425e73043362938b9824";

/// A directory in memory: file paths to contents, and directory paths.
struct Disk {
    files: BTreeMap<String, Vec<u8>>,
    dirs: Vec<String>,
    hashed: Vec<String>,
}

/// An entry as the directory lists it: a name, and how its metadata reads.
struct Entry {
    name: &'static str,
    meta: MetadataStatus,
}

fn file(name: &'static str) -> Entry {
    Entry { name, meta: MetadataStatus::File }
}

fn disk(target: &str, contents: &[(&str, &str)]) -> Disk {
    let mut files = BTreeMap::new();
    for (name, body) in contents {
        files.insert(format!("{}/{}", target, name), body.as_bytes().to_vec());
    }
    Disk { files, dirs: vec![target.to_string()], hashed: Vec::new() }
}

/// Runs a scan against `d`, doing what each step of the library asks.
fn run(d: &mut Disk, target: &str, entries: &[Entry]) -> Result<(), ScanError> {
    let mut scan = Scan::start(Some(target.to_string()))?;
    let q = scan.quarantine_dir();
    if !d.dirs.contains(&q) {
        d.dirs.push(q.clone());
    }
    let mut listing: Vec<(String, MetadataStatus)> =
        entries.iter().map(|e| (e.name.to_string(), e.meta)).collect();
    listing.push(("dupes".to_string(), MetadataStatus::Directory));
    for (name, meta) in listing {
        match entry_step(meta) {
            EntryStep::Skip => continue,
            EntryStep::Abort(e) => return Err(e),
            EntryStep::Hash => {},
        }
        let path = scan.entry_path(&name);
        d.hashed.push(path.clone());
        let bytes = match d.files.get(&path) {
            Some(b) => b.clone(),
            None => return Err(ScanError::IoError),
        };
        if let FileAction::Relocate { copy_from, copy_to, delete } = scan.on_content(&name, &bytes) {
            let copied = match d.files.get(&copy_from).cloned() {
                Some(b) => {
                    d.files.insert(copy_to, b);
                    IoStatus::Done
                },
                None => IoStatus::NotFound,
            };
            after_copy(copied)?;
            let removed = match d.files.remove(&delete) {
                Some(_) => IoStatus::Done,
                None => IoStatus::NotFound,
            };
            after_delete(removed)?;
        }
    }
    Ok(())
}

fn content(d: &Disk, path: &str) -> Option<String> {
    d.files.get(path).map(|b| String::from_utf8(b.clone()).unwrap())
}

fn in_quarantine(d: &Disk, target: &str) -> usize {
    let prefix = format!("{}/dupes/", target);
    d.files.keys().filter(|k| k.starts_with(&prefix)).count()
}

#[test]
fn digest_of_hello() {
    assert_eq!(content_digest(&b"hello".to_vec()), HELLO_SHA256);
}

#[test]
fn digest_is_deterministic_and_separates_contents() {
    let x = b"some bytes".to_vec();
    assert_eq!(content_digest(&x), content_digest(&x.clone()));
    assert_ne!(content_digest(&x), content_digest(&b"other bytes".to_vec()));
    assert_eq!(content_digest(&Vec::new()).len(), 64);
}

#[test]
fn joins_with_one_separator() {
    let name = "a.txt".to_string();
    assert_eq!(join_path(&"dir".to_string(), &name), "dir/a.txt");
    assert_eq!(join_path(&"dir/".to_string(), &name), "dir/a.txt");
    assert_eq!(join_path(&"C:\\dir\\".to_string(), &name), "C:\\dir\\a.txt");
    assert_eq!(quarantine_path(&"dir".to_string()), "dir/dupes");
}

#[test]
fn no_target_selected() {
    assert!(matches!(Scan::start(None), Err(ScanError::NoTargetSelected)));
    assert!(matches!(Scan::start(Some(String::new())), Err(ScanError::NoTargetSelected)));
    let s = Scan::start(Some("dir".to_string())).ok().unwrap();
    assert_eq!(s.target(), "dir");
    assert_eq!(s.quarantine_dir(), "dir/dupes");
}

#[test]
fn classifies_os_errors() {
    assert_eq!(classify_os_error(Some(ERROR_ACCESS_DENIED)), MetadataStatus::PermissionDenied);
    assert_eq!(classify_os_error(Some(5)), MetadataStatus::PermissionDenied);
    assert_eq!(
        classify_os_error(Some(ERROR_CLOUD_FILE_PROVIDER_NOT_RUNNING)),
        MetadataStatus::CloudPlaceholder
    );
    assert_eq!(classify_os_error(Some(362)), MetadataStatus::CloudPlaceholder);
    assert_eq!(classify_os_error(Some(2)), MetadataStatus::Failed);
    assert_eq!(classify_os_error(None), MetadataStatus::Failed);
}

#[test]
fn entry_steps() {
    assert_eq!(entry_step(MetadataStatus::File), EntryStep::Hash);
    assert_eq!(entry_step(MetadataStatus::Directory), EntryStep::Skip);
    assert_eq!(entry_step(MetadataStatus::PermissionDenied), EntryStep::Skip);
    assert_eq!(
        entry_step(MetadataStatus::CloudPlaceholder),
        EntryStep::Abort(ScanError::CloudPlaceholderUnavailable)
    );
    assert_eq!(entry_step(MetadataStatus::Failed), EntryStep::Abort(ScanError::MetadataError));
}

#[test]
fn copy_and_delete_outcomes() {
    assert_eq!(after_copy(IoStatus::Done), Ok(()));
    assert_eq!(after_copy(IoStatus::NotFound), Err(ScanError::IoError));
    assert_eq!(after_copy(IoStatus::Failed), Err(ScanError::IoError));
    assert_eq!(after_delete(IoStatus::Done), Ok(()));
    assert_eq!(after_delete(IoStatus::NotFound), Ok(()));
    assert_eq!(after_delete(IoStatus::Failed), Err(ScanError::IoError));
}

#[test]
fn actions_for_a_duplicate_pair() {
    let mut s = Scan::start(Some("dir".to_string())).ok().unwrap();
    let hello = b"hello".to_vec();
    assert_eq!(s.on_content(&"a.txt".to_string(), &hello), FileAction::Register);
    assert_eq!(
        s.on_content(&"b.txt".to_string(), &hello),
        FileAction::Relocate {
            copy_from: "dir/b.txt".to_string(),
            copy_to: "dir/dupes/b.txt".to_string(),
            delete: "dir/a.txt".to_string(),
        }
    );
    assert_eq!(s.on_content(&"c.txt".to_string(), &b"other".to_vec()), FileAction::Register);
}

#[test]
fn third_duplicate_deletes_the_first_again() {
    let mut s = Scan::start(Some("dir".to_string())).ok().unwrap();
    let d = HELLO_SHA256.to_string();
    assert_eq!(s.on_digest(&"a".to_string(), d.clone()), FileAction::Register);
    s.on_digest(&"b".to_string(), d.clone());
    assert_eq!(
        s.on_digest(&"c".to_string(), d),
        FileAction::Relocate {
            copy_from: "dir/c".to_string(),
            copy_to: "dir/dupes/c".to_string(),
            delete: "dir/a".to_string(),
        }
    );
}

#[test]
fn duplicate_relocation_scenario() {
    let mut d = disk("dir", &[("a.txt", "hello"), ("b.txt", "hello")]);
    assert_eq!(run(&mut d, "dir", &[file("a.txt"), file("b.txt")]), Ok(()));
    assert_eq!(content(&d, "dir/a.txt"), None);
    assert_eq!(content(&d, "dir/b.txt"), Some("hello".to_string()));
    assert_eq!(content(&d, "dir/dupes/b.txt"), Some("hello".to_string()));
}

#[test]
fn three_way_duplicates_complete() {
    let mut d = disk("dir", &[("a", "x"), ("b", "x"), ("c", "x")]);
    assert_eq!(run(&mut d, "dir", &[file("a"), file("b"), file("c")]), Ok(()));
    assert_eq!(content(&d, "dir/a"), None);
    assert_eq!(content(&d, "dir/b"), Some("x".to_string()));
    assert_eq!(content(&d, "dir/c"), Some("x".to_string()));
    assert_eq!(in_quarantine(&d, "dir"), 2);
}

#[test]
fn no_duplicates_changes_nothing() {
    let mut d = disk("dir", &[("a", "1"), ("b", "2"), ("c", "3")]);
    let before = d.files.clone();
    assert_eq!(run(&mut d, "dir", &[file("a"), file("b"), file("c")]), Ok(()));
    assert_eq!(d.files, before);
    assert!(d.dirs.contains(&"dir/dupes".to_string()));
}

#[test]
fn second_scan_without_duplicates() {
    let mut d = disk("dir", &[("a", "1"), ("b", "2")]);
    let before = d.files.clone();
    assert_eq!(run(&mut d, "dir", &[file("a"), file("b")]), Ok(()));
    assert_eq!(in_quarantine(&d, "dir"), 0);
    assert_eq!(run(&mut d, "dir", &[file("a"), file("b")]), Ok(()));
    assert_eq!(in_quarantine(&d, "dir"), 0);
    assert_eq!(d.files, before);
    assert_eq!(d.dirs.iter().filter(|p| p.as_str() == "dir/dupes").count(), 1);
}

#[test]
fn permission_denied_entry_is_skipped() {
    let mut d = disk("dir", &[("a", "same"), ("locked", "same"), ("b", "other")]);
    let entries = [
        file("a"),
        Entry { name: "locked", meta: classify_os_error(Some(ERROR_ACCESS_DENIED)) },
        file("b"),
    ];
    assert_eq!(run(&mut d, "dir", &entries), Ok(()));
    assert!(!d.hashed.contains(&"dir/locked".to_string()));
    assert_eq!(content(&d, "dir/a"), Some("same".to_string()));
    assert_eq!(in_quarantine(&d, "dir"), 0);
}

#[test]
fn cloud_placeholder_aborts() {
    let mut d = disk("dir", &[("a", "x"), ("cloud", "y"), ("b", "x")]);
    let entries = [
        file("a"),
        Entry {
            name: "cloud",
            meta: classify_os_error(Some(ERROR_CLOUD_FILE_PROVIDER_NOT_RUNNING)),
        },
        file("b"),
    ];
    assert_eq!(run(&mut d, "dir", &entries), Err(ScanError::CloudPlaceholderUnavailable));
    assert_eq!(d.hashed, vec!["dir/a".to_string()]);
    assert_eq!(content(&d, "dir/a"), Some("x".to_string()));
    assert_eq!(in_quarantine(&d, "dir"), 0);
}

#[test]
fn other_metadata_failure_aborts() {
    let mut d = disk("dir", &[("a", "x")]);
    let entries = [Entry { name: "a", meta: classify_os_error(Some(2)) }];
    assert_eq!(run(&mut d, "dir", &entries), Err(ScanError::MetadataError));
    assert!(d.hashed.is_empty());
}

#[test]
fn same_name_in_quarantine_is_overwritten() {
    let mut s = Scan::start(Some("dir".to_string())).ok().unwrap();
    let mut quarantine: BTreeMap<String, Vec<u8>> = BTreeMap::new();
    let files: [(&str, &[u8]); 4] =
        [("x1", b"first"), ("y1", b"second"), ("same", b"first"), ("same", b"second")];
    for (name, body) in files {
        let bytes = body.to_vec();
        if let FileAction::Relocate { copy_to, .. } = s.on_content(&name.to_string(), &bytes) {
            quarantine.insert(copy_to, bytes);
        }
    }
    assert_eq!(quarantine.len(), 1);
    assert_eq!(quarantine.get("dir/dupes/same"), Some(&b"second".to_vec()));
}
