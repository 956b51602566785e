use vstd::prelude::*;

use crate::digest::sha256_hex;
use crate::path::{joined, quarantine_of};
use crate::scan::{is_action_for, next_seen, FileAction};

verus! {

/// A hashed file of a scan: its name in the target directory and the digest
/// of its content. A scan sees its files in enumeration order.
pub type HashedFile = (Seq<char>, Seq<char>);

/// The index after the scan of `target` has hashed `files`.
pub open spec fn seen_after(target: Seq<char>, files: Seq<HashedFile>) -> Map<Seq<char>, Seq<char>>
    decreases files.len(),
{
    if files.len() == 0 {
        Map::empty()
    } else {
        next_seen(seen_after(target, files.drop_last()), target, files.last().0, files.last().1)
    }
}

/// The file at position `j` has the content of a file hashed before it.
pub open spec fn is_duplicate_at(target: Seq<char>, files: Seq<HashedFile>, j: int) -> bool {
    seen_after(target, files.take(j)).contains_key(files[j].1)
}

/// The quarantine directory after the scan of `files`: each file name in it,
/// mapped to the digest of its content.
pub open spec fn quarantine_after(target: Seq<char>, files: Seq<HashedFile>) -> Map<Seq<char>, Seq<char>>
    decreases files.len(),
{
    if files.len() == 0 {
        Map::empty()
    } else {
        let before = files.drop_last();
        let q = quarantine_after(target, before);
        if seen_after(target, before).contains_key(files.last().1) {
            q.insert(files.last().0, files.last().1)
        } else {
            q
        }
    }
}

/// The paths deleted by the scan of `files`.
pub open spec fn deleted_after(target: Seq<char>, files: Seq<HashedFile>) -> Set<Seq<char>>
    decreases files.len(),
{
    if files.len() == 0 {
        Set::empty()
    } else {
        let before = files.drop_last();
        let seen = seen_after(target, before);
        let d = deleted_after(target, before);
        if seen.contains_key(files.last().1) {
            d.insert(seen[files.last().1])
        } else {
            d
        }
    }
}

/// No two files have the same digest.
pub open spec fn all_distinct(files: Seq<HashedFile>) -> bool {
    forall|i: int, j: int| 0 <= i < j < files.len() ==> files[i].1 != files[j].1
}

/// Hashing one more file moves the index by one step of the policy: what
/// [`crate::scan::Scan::on_digest`] does is what the model says.
pub proof fn seen_after_push(target: Seq<char>, files: Seq<HashedFile>, f: HashedFile)
    ensures
        seen_after(target, files.push(f)) == next_seen(seen_after(target, files), target, f.0, f.1),
{
    assert(files.push(f).drop_last() =~= files);
}

/// The action owed for one more file is the step the model takes: a
/// relocation exactly for a duplicate, which puts the file's content in the
/// quarantine directory under its own name and deletes the recorded path;
/// otherwise nothing changes.
pub proof fn action_follows_model(
    target: Seq<char>,
    files: Seq<HashedFile>,
    f: HashedFile,
    a: FileAction,
)
    requires
        is_action_for(a, seen_after(target, files), target, f.0, f.1),
    ensures
        (a is Relocate) == is_duplicate_at(target, files.push(f), files.len() as int),
        a is Relocate ==> {
            &&& a->copy_to@ == joined(quarantine_of(target), f.0)
            &&& quarantine_after(target, files.push(f)) == quarantine_after(target, files).insert(
                f.0,
                f.1,
            )
            &&& deleted_after(target, files.push(f)) == deleted_after(target, files).insert(
                a->delete@,
            )
        },
        a is Register ==> {
            &&& quarantine_after(target, files.push(f)) == quarantine_after(target, files)
            &&& deleted_after(target, files.push(f)) == deleted_after(target, files)
        },
{
    assert(files.push(f).drop_last() =~= files);
    assert(files.push(f).take(files.len() as int) =~= files);
}

/// The index holds exactly the digests of the files hashed so far.
pub proof fn seen_keys(target: Seq<char>, files: Seq<HashedFile>, d: Seq<char>)
    ensures
        seen_after(target, files).contains_key(d) <==> exists|i: int|
            0 <= i < files.len() && #[trigger] files[i].1 == d,
    decreases files.len(),
{
    if files.len() > 0 {
        let before = files.drop_last();
        seen_keys(target, before, d);
        if seen_after(target, before).contains_key(d) {
            let i = choose|i: int| 0 <= i < before.len() && #[trigger] before[i].1 == d;
            assert(files[i].1 == d);
        }
        if exists|i: int| 0 <= i < files.len() && #[trigger] files[i].1 == d {
            let i = choose|i: int| 0 <= i < files.len() && #[trigger] files[i].1 == d;
            if i < before.len() {
                assert(before[i].1 == d);
            }
        }
    }
}

/// Files with equal content are duplicates: of two files with the same
/// bytes, the one hashed later is found in the index.
pub proof fn equal_contents_are_duplicates(
    target: Seq<char>,
    files: Seq<HashedFile>,
    first: Seq<char>,
    second: Seq<char>,
    x: Seq<u8>,
    y: Seq<u8>,
)
    requires
        x == y,
    ensures
        is_duplicate_at(
            target,
            files.push((first, sha256_hex(x))).push((second, sha256_hex(y))),
            (files.len() + 1) as int,
        ),
{
    let once = files.push((first, sha256_hex(x)));
    let twice = once.push((second, sha256_hex(y)));
    assert(twice.take((files.len() + 1) as int) =~= once);
    seen_after_push(target, files, (first, sha256_hex(x)));
}

/// A scan of files with pairwise distinct contents copies nothing into the
/// quarantine directory and deletes nothing.
pub proof fn distinct_contents_change_nothing(target: Seq<char>, files: Seq<HashedFile>)
    requires
        all_distinct(files),
    ensures
        quarantine_after(target, files) == Map::<Seq<char>, Seq<char>>::empty(),
        deleted_after(target, files) == Set::<Seq<char>>::empty(),
    decreases files.len(),
{
    if files.len() > 0 {
        let before = files.drop_last();
        assert(all_distinct(before)) by {
            assert forall|i: int, j: int| 0 <= i < j < before.len() implies before[i].1
                != before[j].1 by {
                assert(before[i] == files[i] && before[j] == files[j]);
            }
        }
        distinct_contents_change_nothing(target, before);
        seen_keys(target, before, files.last().1);
        if seen_after(target, before).contains_key(files.last().1) {
            let i = choose|i: int| 0 <= i < before.len() && #[trigger] before[i].1 == files.last().1;
            assert(files[i] == before[i]);
        }
    }
}

/// Scanning twice a directory without duplicates: the first scan copies and
/// deletes nothing, so the second sees the same files (the quarantine
/// directory, a directory, is skipped) and again changes nothing.
pub proof fn rescan_without_duplicates_changes_nothing(
    target: Seq<char>,
    files: Seq<HashedFile>,
)
    requires
        all_distinct(files),
    ensures
        deleted_after(target, files) == Set::<Seq<char>>::empty(),
        quarantine_after(target, files) == Map::<Seq<char>, Seq<char>>::empty(),
{
    distinct_contents_change_nothing(target, files);
}

/// A later copy into the quarantine directory overwrites an earlier one with
/// the same name: the quarantined file of a name holds the content of the
/// last duplicate with that name.
pub proof fn last_duplicate_of_a_name_wins(target: Seq<char>, files: Seq<HashedFile>, j: int)
    requires
        0 <= j < files.len(),
        is_duplicate_at(target, files, j),
        forall|k: int|
            j < k < files.len() && #[trigger] files[k].0 == files[j].0 ==> !is_duplicate_at(
                target,
                files,
                k,
            ),
    ensures
        quarantine_after(target, files).contains_key(files[j].0),
        quarantine_after(target, files)[files[j].0] == files[j].1,
    decreases files.len(),
{
    let before = files.drop_last();
    let last = files.len() - 1;
    if j == last {
        assert(files.take(j) =~= before);
    } else {
        assert(before.take(j) =~= files.take(j));
        assert(before[j] == files[j]);
        assert forall|k: int|
            j < k < before.len() && #[trigger] before[k].0 == before[j].0 implies !is_duplicate_at(
            target,
            before,
            k,
        ) by {
            assert(before.take(k) =~= files.take(k));
            assert(before[k] == files[k]);
        }
        last_duplicate_of_a_name_wins(target, before, j);
        assert(files.take(last) =~= before);
        if seen_after(target, before).contains_key(files.last().1) {
            assert(is_duplicate_at(target, files, last));
            assert(files[last].0 != files[j].0);
        }
    }
}

} // verus!
