//! A directory tree held in memory, and the transfer of one entry of it as
//! the engine decides it. It shows what the decisions amount to on a
//! filesystem that does what it is asked: where the tree ends up, and how
//! many bytes it counts for.

use vstd::prelude::*;
use vstd::string::*;
use crate::conflict::{name_taken, ConflictResolver};
use crate::fs::FileKind;
use crate::transfer::{Outcome, Phase, TransferEngine};

verus! {

/// A file, a link or a directory with what is below it.
#[derive(Debug, PartialEq, Eq)]
pub enum FsEntry {
    File { name: String, len: u64 },
    Symlink { name: String, target: String },
    Directory { name: String, entries: Vec<FsEntry> },
}

/// The name of an entry in its directory.
pub open spec fn entry_name(e: FsEntry) -> Seq<char> {
    match e {
        FsEntry::File { name, .. } => name@,
        FsEntry::Symlink { name, .. } => name@,
        FsEntry::Directory { name, .. } => name@,
    }
}

/// The sum of the lengths of the regular files in and below an entry.
pub open spec fn file_bytes(e: FsEntry) -> nat
    decreases e,
{
    match e {
        FsEntry::File { len, .. } => len as nat,
        FsEntry::Symlink { .. } => 0,
        FsEntry::Directory { entries, .. } => sum_bytes(entries@),
    }
}

/// The sum of `file_bytes` over a list of entries.
pub open spec fn sum_bytes(s: Seq<FsEntry>) -> nat
    decreases s,
{
    if s.len() == 0 {
        0
    } else {
        sum_bytes(s.drop_last()) + file_bytes(s.last())
    }
}

/// A byte count as the engine reports it: capped at the largest `u64`.
pub open spec fn capped(n: nat) -> u64 {
    if n <= u64::MAX {
        n as u64
    } else {
        u64::MAX
    }
}

/// Whether `b` holds what `a` holds: the same kind of entry, and below a
/// directory the same names at the same places with the same content. The
/// names of `a` and `b` themselves are not compared.
pub open spec fn same_tree(a: FsEntry, b: FsEntry) -> bool
    decreases a,
{
    match a {
        FsEntry::File { len, .. } => match b {
            FsEntry::File { len: other, .. } => other == len,
            _ => false,
        },
        FsEntry::Symlink { target, .. } => match b {
            FsEntry::Symlink { target: other, .. } => other@ == target@,
            _ => false,
        },
        FsEntry::Directory { entries, .. } => match b {
            FsEntry::Directory { entries: others, .. } => {
                &&& others@.len() == entries@.len()
                &&& forall|i: int|
                    0 <= i < entries@.len() ==> entry_name(others@[i]) == entry_name(
                        #[trigger] entries@[i],
                    ) && same_tree(entries@[i], others@[i])
            },
            _ => false,
        },
    }
}

/// Whether no directory in or below the entry holds a name twice.
pub open spec fn well_named(e: FsEntry) -> bool
    decreases e,
{
    match e {
        FsEntry::Directory { entries, .. } => {
            &&& forall|i: int, j: int|
                0 <= i < j < entries@.len() ==> entry_name(entries@[i]) != entry_name(entries@[j])
            &&& forall|i: int| 0 <= i < entries@.len() ==> well_named(#[trigger] entries@[i])
        },
        _ => true,
    }
}

/// Whether an entry of `entries` has the name `name`.
pub open spec fn taken_in(entries: Seq<FsEntry>, name: Seq<char>) -> bool {
    exists|i: int| 0 <= i < entries.len() && entry_name(#[trigger] entries[i]) == name
}

proof fn lemma_same_tree_refl(e: FsEntry)
    ensures
        same_tree(e, e),
    decreases e,
{
    match e {
        FsEntry::Directory { entries, .. } => {
            assert forall|i: int| 0 <= i < entries@.len() implies same_tree(
                #[trigger] entries@[i],
                entries@[i],
            ) by {
                lemma_same_tree_refl(entries@[i]);
            }
        },
        _ => {},
    }
}

/// Entries that hold the same hold the same number of file bytes: what a
/// transfer reports is what stands at the destination.
pub proof fn same_tree_same_bytes(a: FsEntry, b: FsEntry)
    requires
        same_tree(a, b),
    ensures
        file_bytes(a) == file_bytes(b),
    decreases a,
{
    match a {
        FsEntry::Directory { entries, .. } => {
            match b {
                FsEntry::Directory { entries: others, .. } => {
                    lemma_same_sum(a, entries@, others@, entries@.len());
                    assert(entries@.subrange(0, entries@.len() as int) =~= entries@);
                    assert(others@.subrange(0, entries@.len() as int) =~= others@);
                },
                _ => {},
            }
        },
        _ => {},
    }
}

proof fn lemma_same_sum(parent: FsEntry, a: Seq<FsEntry>, b: Seq<FsEntry>, k: nat)
    requires
        parent is Directory,
        parent->entries@ == a,
        a.len() == b.len(),
        k <= a.len(),
        forall|i: int| 0 <= i < a.len() ==> same_tree(#[trigger] a[i], b[i]),
    ensures
        sum_bytes(a.subrange(0, k as int)) == sum_bytes(b.subrange(0, k as int)),
    decreases parent, k,
{
    if k > 0 {
        lemma_same_sum(parent, a, b, (k - 1) as nat);
        assert(a.subrange(0, k as int).drop_last() =~= a.subrange(0, k - 1));
        assert(b.subrange(0, k as int).drop_last() =~= b.subrange(0, k - 1));
        assert(same_tree(a[k - 1], b[k - 1]));
        same_tree_same_bytes(a[k - 1], b[k - 1]);
    }
}

proof fn lemma_taken(entries: Seq<FsEntry>, names: Seq<String>, name: Seq<char>)
    requires
        names.len() == entries.len(),
        forall|i: int| 0 <= i < names.len() ==> (#[trigger] names[i])@ == entry_name(entries[i]),
    ensures
        name_taken(names, name) == taken_in(entries, name),
{
    if name_taken(names, name) {
        let i = choose|i: int| 0 <= i < names.len() && (#[trigger] names[i])@ == name;
        assert(entry_name(entries[i]) == name);
    }
    if taken_in(entries, name) {
        let i = choose|i: int| 0 <= i < entries.len() && entry_name(#[trigger] entries[i]) == name;
        assert(names[i]@ == name);
    }
}

impl FsEntry {
    /// The entry's name.
    pub fn name(&self) -> (name: &String)
        ensures
            name@ == entry_name(*self),
    {
        match self {
            FsEntry::File { name, .. } => name,
            FsEntry::Symlink { name, .. } => name,
            FsEntry::Directory { name, .. } => name,
        }
    }

    /// The entry's type.
    pub fn kind(&self) -> (kind: FileKind)
        ensures
            kind == match *self {
                FsEntry::File { .. } => FileKind::File,
                FsEntry::Symlink { .. } => FileKind::Symlink,
                FsEntry::Directory { .. } => FileKind::Directory,
            },
    {
        match self {
            FsEntry::File { .. } => FileKind::File,
            FsEntry::Symlink { .. } => FileKind::Symlink,
            FsEntry::Directory { .. } => FileKind::Directory,
        }
    }

    /// The bytes of the regular files in and below the entry, capped.
    pub fn count_bytes(&self) -> (bytes: u64)
        ensures
            bytes == capped(file_bytes(*self)),
        decreases *self,
    {
        match self {
            FsEntry::File { len, .. } => *len,
            FsEntry::Symlink { .. } => 0,
            FsEntry::Directory { entries, .. } => {
                let mut total: u64 = 0;
                let mut i: usize = 0;
                while i < entries.len()
                    invariant
                        i <= entries@.len(),
                        *self is Directory,
                        self->entries == *entries,
                        total == capped(sum_bytes(entries@.subrange(0, i as int))),
                    decreases entries@.len() - i,
                {
                    assert(entries@.subrange(0, i + 1).drop_last() =~= entries@.subrange(
                        0,
                        i as int,
                    ));
                    let below = entries[i].count_bytes();
                    total = total.saturating_add(below);
                    i = i + 1;
                }
                assert(entries@.subrange(0, i as int) =~= entries@);
                total
            },
        }
    }
}

/// The names of the entries of a directory.
pub fn names_of(entries: &Vec<FsEntry>) -> (names: Vec<String>)
    ensures
        names@.len() == entries@.len(),
        forall|i: int| 0 <= i < names@.len() ==> (#[trigger] names@[i])@ == entry_name(entries@[i]),
{
    let mut names: Vec<String> = Vec::new();
    let mut i: usize = 0;
    while i < entries.len()
        invariant
            i <= entries@.len(),
            names@.len() == i,
            forall|k: int| 0 <= k < i ==> (#[trigger] names@[k])@ == entry_name(entries@[k]),
        decreases entries@.len() - i,
    {
        names.push(entries[i].name().clone());
        i = i + 1;
    }
    names
}

/// Moves `src` into the directory whose entries are `dest`, as the engine
/// decides it: by one rename where source and destination are on the same
/// device, else piece by piece. The entry arrives under a name that is free
/// in the directory, with everything below it at its place, and the result
/// is the sum of the lengths of its regular files, capped.
pub fn recursive_cut(dest: &mut Vec<FsEntry>, src: FsEntry, same_device: bool) -> (bytes: u64)
    requires
        well_named(src),
    ensures
        final(dest)@.len() == old(dest)@.len() + 1,
        final(dest)@.subrange(0, old(dest)@.len() as int) == old(dest)@,
        same_tree(src, final(dest)@.last()),
        !taken_in(old(dest)@, entry_name(final(dest)@.last())),
        !taken_in(old(dest)@, entry_name(src)) ==> entry_name(final(dest)@.last()) == entry_name(
            src,
        ),
        bytes == capped(file_bytes(src)),
    decreases src,
{
    let names = names_of(dest);
    let target = ConflictResolver::resolve(src.name().as_str(), &names);
    let below = src.count_bytes();
    proof {
        lemma_taken(dest@, names@, target@);
        lemma_taken(dest@, names@, entry_name(src));
        lemma_same_tree_refl(src);
    }
    let renamed = if same_device {
        Outcome::Succeeded
    } else {
        Outcome::Failed
    };
    let mut phase = TransferEngine::advance(
        TransferEngine::start(),
        Outcome::Inspected { kind: src.kind(), len: below },
    );
    match src {
        FsEntry::File { name, len } => {
            phase = TransferEngine::advance(phase, renamed);
            if !same_device {
                phase = TransferEngine::advance(phase, Outcome::Succeeded);
                phase = TransferEngine::advance(phase, Outcome::Succeeded);
            }
            dest.push(FsEntry::File { name: target, len });
        },
        FsEntry::Symlink { name, target: link } => {
            phase = TransferEngine::advance(phase, Outcome::Succeeded);
            phase = TransferEngine::advance(phase, Outcome::Succeeded);
            phase = TransferEngine::advance(phase, Outcome::Succeeded);
            dest.push(FsEntry::Symlink { name: target, target: link });
        },
        FsEntry::Directory { name, entries } => {
            phase = TransferEngine::advance(phase, renamed);
            if same_device {
                dest.push(FsEntry::Directory { name: target, entries });
            } else {
                let ghost whole = entries;
                let mut entries = entries;
                let mut fresh: Vec<FsEntry> = Vec::new();
                phase = TransferEngine::advance(phase, Outcome::Succeeded);
                while entries.len() > 0
                    invariant
                        src is Directory,
                        src->entries == whole,
                        well_named(src),
                        fresh@.len() + entries@.len() == whole@.len(),
                        entries@ == whole@.subrange(fresh@.len() as int, whole@.len() as int),
                        forall|i: int|
                            0 <= i < fresh@.len() ==> entry_name(fresh@[i]) == entry_name(
                                #[trigger] whole@[i],
                            ) && same_tree(whole@[i], fresh@[i]),
                        phase == (Phase::Children {
                            total: capped(sum_bytes(whole@.subrange(0, fresh@.len() as int))),
                        }),
                    decreases entries@.len(),
                {
                    let ghost k = fresh@.len() as int;
                    let ghost before = fresh@;
                    let child = entries.remove(0);
                    proof {
                        assert(child == whole@[k]);
                        assert(entries@ =~= whole@.subrange(k + 1, whole@.len() as int));
                        assert(well_named(whole@[k]));
                        assert(!taken_in(before, entry_name(child))) by {
                            if taken_in(before, entry_name(child)) {
                                let i = choose|i: int|
                                    0 <= i < before.len() && entry_name(#[trigger] before[i])
                                        == entry_name(child);
                                assert(entry_name(whole@[i]) != entry_name(whole@[k]));
                            }
                        }
                        assert(whole@.subrange(0, k + 1).drop_last() =~= whole@.subrange(0, k));
                        assert(decreases_to!(src => child));
                    }
                    let moved = recursive_cut(&mut fresh, child, false);
                    phase = TransferEngine::advance(phase, Outcome::ChildMoved { bytes: moved });
                    proof {
                        assert forall|i: int| 0 <= i < fresh@.len() implies entry_name(fresh@[i])
                            == entry_name(#[trigger] whole@[i]) && same_tree(
                            whole@[i],
                            fresh@[i],
                        ) by {
                            if i < k {
                                assert(fresh@[i] == fresh@.subrange(0, k)[i]);
                            }
                        }
                    }
                }
                phase = TransferEngine::advance(phase, Outcome::Succeeded);
                phase = TransferEngine::advance(phase, Outcome::Succeeded);
                proof {
                    assert(whole@.subrange(0, whole@.len() as int) =~= whole@);
                }
                dest.push(FsEntry::Directory { name: target, entries: fresh });
            }
        },
    }
    proof {
        assert(dest@.subrange(0, old(dest)@.len() as int) =~= old(dest)@);
    }
    match TransferEngine::bytes_moved(phase) {
        Some(total) => total,
        None => below,
    }
}

} // verus!
