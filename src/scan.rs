use vstd::prelude::*;
use vstd::string::*;

use crate::digest::{content_digest, sha256_hex};
use crate::index::DuplicateIndex;
use crate::path::{join_path, joined, quarantine_of, quarantine_path};

verus! {

/// Windows error code for a denied access.
pub const ERROR_ACCESS_DENIED: i32 = 5;

/// Windows error code for a cloud file whose sync provider is not running.
pub const ERROR_CLOUD_FILE_PROVIDER_NOT_RUNNING: i32 = 362;

/// Why a scan did not run or stopped early.
#[derive(Clone, Copy, Debug, PartialEq, Eq, Structural)]
pub enum ScanError {
    /// No target directory was supplied.
    NoTargetSelected,
    /// An entry is a cloud placeholder that the sync client has not materialized.
    CloudPlaceholderUnavailable,
    /// Reading an entry's metadata failed for another reason.
    MetadataError,
    /// Enumerating, reading, copying or deleting failed.
    IoError,
}

/// What a metadata request on an entry gave.
#[derive(Clone, Copy, Debug, PartialEq, Eq, Structural)]
pub enum MetadataStatus {
    File,
    Directory,
    PermissionDenied,
    CloudPlaceholder,
    Failed,
}

/// What the scan does with an entry once its metadata is known.
#[derive(Clone, Copy, Debug, PartialEq, Eq, Structural)]
pub enum EntryStep {
    /// Read the file and hand its content to [`Scan::on_content`].
    Hash,
    /// Leave the entry alone and go on with the next one.
    Skip,
    /// Stop the scan with this error.
    Abort(ScanError),
}

/// How a copy or a delete went.
#[derive(Clone, Copy, Debug, PartialEq, Eq, Structural)]
pub enum IoStatus {
    Done,
    NotFound,
    Failed,
}

/// The file system work owed for one hashed file.
#[derive(Debug, PartialEq, Eq)]
pub enum FileAction {
    /// First file with this content: nothing to do.
    Register,
    /// A file with this content was seen before: copy `copy_from` to
    /// `copy_to`, then delete `delete`, the file seen first.
    Relocate { copy_from: String, copy_to: String, delete: String },
}

/// The index after a file named `name` in `target`, with content digest
/// `digest`, has been hashed: a new digest is bound to the file's path; a
/// known one keeps its binding.
pub open spec fn next_seen(
    seen: Map<Seq<char>, Seq<char>>,
    target: Seq<char>,
    name: Seq<char>,
    digest: Seq<char>,
) -> Map<Seq<char>, Seq<char>> {
    if seen.contains_key(digest) {
        seen
    } else {
        seen.insert(digest, joined(target, name))
    }
}

/// `a` is the action owed for that file: nothing for a new digest; for a
/// known one, a copy of the file into the quarantine directory under its own
/// name, then the deletion of the file recorded first.
pub open spec fn is_action_for(
    a: FileAction,
    seen: Map<Seq<char>, Seq<char>>,
    target: Seq<char>,
    name: Seq<char>,
    digest: Seq<char>,
) -> bool {
    match a {
        FileAction::Register => !seen.contains_key(digest),
        FileAction::Relocate { copy_from, copy_to, delete } => {
            &&& seen.contains_key(digest)
            &&& copy_from@ == joined(target, name)
            &&& copy_to@ == joined(quarantine_of(target), name)
            &&& delete@ == seen[digest]
        },
    }
}

/// The step for an entry with the given metadata status.
pub open spec fn step_for(m: MetadataStatus) -> EntryStep {
    match m {
        MetadataStatus::File => EntryStep::Hash,
        MetadataStatus::Directory => EntryStep::Skip,
        MetadataStatus::PermissionDenied => EntryStep::Skip,
        MetadataStatus::CloudPlaceholder => EntryStep::Abort(ScanError::CloudPlaceholderUnavailable),
        MetadataStatus::Failed => EntryStep::Abort(ScanError::MetadataError),
    }
}

/// Reads a failed metadata request's OS error code.
pub fn classify_os_error(code: Option<i32>) -> (r: MetadataStatus)
    ensures
        r == (if code == Some(ERROR_ACCESS_DENIED) {
            MetadataStatus::PermissionDenied
        } else if code == Some(ERROR_CLOUD_FILE_PROVIDER_NOT_RUNNING) {
            MetadataStatus::CloudPlaceholder
        } else {
            MetadataStatus::Failed
        }),
{
    match code {
        Some(c) => {
            if c == ERROR_ACCESS_DENIED {
                MetadataStatus::PermissionDenied
            } else if c == ERROR_CLOUD_FILE_PROVIDER_NOT_RUNNING {
                MetadataStatus::CloudPlaceholder
            } else {
                MetadataStatus::Failed
            }
        },
        None => MetadataStatus::Failed,
    }
}

/// Decides what to do with an entry: hash a file; skip a directory (the
/// quarantine directory among them) and an entry whose access is denied;
/// stop on a cloud placeholder or any other metadata failure.
pub fn entry_step(m: MetadataStatus) -> (r: EntryStep)
    ensures
        r == step_for(m),
{
    match m {
        MetadataStatus::File => EntryStep::Hash,
        MetadataStatus::Directory => EntryStep::Skip,
        MetadataStatus::PermissionDenied => EntryStep::Skip,
        MetadataStatus::CloudPlaceholder => EntryStep::Abort(ScanError::CloudPlaceholderUnavailable),
        MetadataStatus::Failed => EntryStep::Abort(ScanError::MetadataError),
    }
}

/// Outcome of the copy into the quarantine directory: any failure is fatal.
pub fn after_copy(s: IoStatus) -> (r: Result<(), ScanError>)
    ensures
        r == (if s == IoStatus::Done {
            Ok::<(), ScanError>(())
        } else {
            Err(ScanError::IoError)
        }),
{
    match s {
        IoStatus::Done => Ok(()),
        _ => Err(ScanError::IoError),
    }
}

/// Outcome of deleting the file seen first. A file that is already gone
/// (removed for an earlier duplicate of the same content) is no error.
pub fn after_delete(s: IoStatus) -> (r: Result<(), ScanError>)
    ensures
        r == (if s == IoStatus::Failed {
            Err(ScanError::IoError)
        } else {
            Ok::<(), ScanError>(())
        }),
{
    match s {
        IoStatus::Failed => Err(ScanError::IoError),
        _ => Ok(()),
    }
}

/// The state of one scan of a target directory.
pub struct Scan {
    target: String,
    quarantine: String,
    seen: DuplicateIndex,
}

impl Scan {
    pub closed spec fn wf(&self) -> bool {
        &&& self.seen.wf()
        &&& self.quarantine@ == quarantine_of(self.target@)
    }

    /// The directory being scanned.
    pub closed spec fn target_path(&self) -> Seq<char> {
        self.target@
    }

    /// Each content digest seen so far, bound to the first file that had it.
    pub closed spec fn seen(&self) -> Map<Seq<char>, Seq<char>> {
        self.seen@
    }

    /// Begins a scan of `target`. Without a target (none, or an empty
    /// path) no scan runs.
    pub fn start(target: Option<String>) -> (r: Result<Scan, ScanError>)
        ensures
            match target {
                Some(t) if t@.len() > 0 => {
                    &&& r is Ok
                    &&& r->Ok_0.wf()
                    &&& r->Ok_0.target_path() == t@
                    &&& r->Ok_0.seen() == Map::<Seq<char>, Seq<char>>::empty()
                },
                _ => r == Err::<Scan, ScanError>(ScanError::NoTargetSelected),
            },
    {
        match target {
            Some(t) => {
                if t.as_str().unicode_len() == 0 {
                    return Err(ScanError::NoTargetSelected);
                }
                let quarantine = quarantine_path(&t);
                Ok(Scan { target: t, quarantine, seen: DuplicateIndex::new() })
            },
            None => Err(ScanError::NoTargetSelected),
        }
    }

    /// The directory being scanned.
    pub fn target(&self) -> (r: &String)
        ensures
            r@ == self.target_path(),
    {
        &self.target
    }

    /// The quarantine directory, to be created before any entry is read.
    pub fn quarantine_dir(&self) -> (r: String)
        requires
            self.wf(),
        ensures
            r@ == quarantine_of(self.target_path()),
    {
        self.quarantine.clone()
    }

    /// The path of the entry named `name`.
    pub fn entry_path(&self, name: &String) -> (r: String)
        ensures
            r@ == joined(self.target_path(), name@),
    {
        join_path(&self.target, name)
    }

    /// Applies the duplicate policy to the file named `name` whose content
    /// has digest `digest`.
    pub fn on_digest(&mut self, name: &String, digest: String) -> (r: FileAction)
        requires
            old(self).wf(),
        ensures
            final(self).wf(),
            final(self).target_path() == old(self).target_path(),
            final(self).seen() == next_seen(
                old(self).seen(),
                old(self).target_path(),
                name@,
                digest@,
            ),
            is_action_for(r, old(self).seen(), old(self).target_path(), name@, digest@),
    {
        match self.seen.get(&digest) {
            Some(first) => {
                let copy_from = join_path(&self.target, name);
                let copy_to = join_path(&self.quarantine, name);
                FileAction::Relocate { copy_from, copy_to, delete: first }
            },
            None => {
                let path = join_path(&self.target, name);
                self.seen.insert_new(digest, path);
                FileAction::Register
            },
        }
    }

    /// Hashes the content `bytes` of the file named `name` and applies the
    /// duplicate policy to it.
    pub fn on_content(&mut self, name: &String, bytes: &Vec<u8>) -> (r: FileAction)
        requires
            old(self).wf(),
        ensures
            final(self).wf(),
            final(self).target_path() == old(self).target_path(),
            final(self).seen() == next_seen(
                old(self).seen(),
                old(self).target_path(),
                name@,
                sha256_hex(bytes@),
            ),
            is_action_for(
                r,
                old(self).seen(),
                old(self).target_path(),
                name@,
                sha256_hex(bytes@),
            ),
    {
        let digest = content_digest(bytes);
        self.on_digest(name, digest)
    }
}

} // verus!
