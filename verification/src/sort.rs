//! The ordering of a listing, applied when a directory is scanned.

use vstd::prelude::*;
use vstd::multiset::Multiset;
use crate::fs::{DirEntryInfo, FileKind, SortKey, SortOption};
use crate::text::{text_le, text_le_total, text_le_transitive, text_precedes};

verus! {

/// Whether `a` may stand before `b` by the key alone.
pub open spec fn key_le(a: DirEntryInfo, b: DirEntryInfo, key: SortKey) -> bool {
    match key {
        SortKey::Name => text_le(a.name@, b.name@),
        SortKey::Size => a.len <= b.len,
        SortKey::Modified => a.modified <= b.modified,
    }
}

/// Whether `a` may stand before `b` in a listing ordered by `sort`:
/// directories before the rest where that is asked, then by the key,
/// ascending or descending.
pub open spec fn entry_le(a: DirEntryInfo, b: DirEntryInfo, sort: SortOption) -> bool {
    if sort.directories_first && (a.kind == FileKind::Directory) != (b.kind
        == FileKind::Directory) {
        a.kind == FileKind::Directory
    } else if sort.reverse {
        key_le(b, a, sort.key)
    } else {
        key_le(a, b, sort.key)
    }
}

/// Whether the entries stand in the order that `sort` asks.
pub open spec fn ordered(entries: Seq<DirEntryInfo>, sort: SortOption) -> bool {
    forall|i: int, j: int|
        0 <= i <= j < entries.len() ==> entry_le(#[trigger] entries[i], #[trigger] entries[j], sort)
}

/// Of two entries one may stand before the other.
pub proof fn entry_le_total(a: DirEntryInfo, b: DirEntryInfo, sort: SortOption)
    ensures
        entry_le(a, b, sort) || entry_le(b, a, sort),
        entry_le(a, a, sort),
{
    text_le_total(a.name@, b.name@);
    text_le_total(a.name@, a.name@);
}

/// The order of entries is transitive.
pub proof fn entry_le_transitive(a: DirEntryInfo, b: DirEntryInfo, c: DirEntryInfo, sort: SortOption)
    requires
        entry_le(a, b, sort),
        entry_le(b, c, sort),
    ensures
        entry_le(a, c, sort),
{
    if text_le(a.name@, b.name@) && text_le(b.name@, c.name@) {
        text_le_transitive(a.name@, b.name@, c.name@);
    }
    if text_le(c.name@, b.name@) && text_le(b.name@, a.name@) {
        text_le_transitive(c.name@, b.name@, a.name@);
    }
}

fn key_precedes(a: &DirEntryInfo, b: &DirEntryInfo, key: SortKey) -> (first: bool)
    ensures
        first == key_le(*a, *b, key),
{
    match key {
        SortKey::Name => text_precedes(a.name.as_str(), b.name.as_str()),
        SortKey::Size => a.len <= b.len,
        SortKey::Modified => a.modified <= b.modified,
    }
}

/// Whether `a` may stand before `b` in a listing ordered by `sort`.
pub fn precedes(a: &DirEntryInfo, b: &DirEntryInfo, sort: SortOption) -> (first: bool)
    ensures
        first == entry_le(*a, *b, sort),
{
    let a_dir = a.kind == FileKind::Directory;
    let b_dir = b.kind == FileKind::Directory;
    if sort.directories_first && a_dir != b_dir {
        a_dir
    } else if sort.reverse {
        key_precedes(b, a, sort.key)
    } else {
        key_precedes(a, b, sort.key)
    }
}

/// Puts the entries of a scan in the order that `sort` asks: the same
/// entries, each as often as before.
pub fn sort_entries(entries: Vec<DirEntryInfo>, sort: SortOption) -> (sorted: Vec<DirEntryInfo>)
    ensures
        ordered(sorted@, sort),
        sorted@.to_multiset() == entries@.to_multiset(),
{
    let mut rest = entries;
    let mut sorted: Vec<DirEntryInfo> = Vec::new();
    assert(sorted@.to_multiset().add(rest@.to_multiset()) =~= entries@.to_multiset()) by {
        sorted@.to_multiset_ensures();
    }
    while rest.len() > 0
        invariant
            ordered(sorted@, sort),
            forall|i: int, j: int|
                0 <= i < sorted@.len() && 0 <= j < rest@.len() ==> entry_le(
                    #[trigger] sorted@[i],
                    #[trigger] rest@[j],
                    sort,
                ),
            sorted@.to_multiset().add(rest@.to_multiset()) == entries@.to_multiset(),
        decreases rest@.len(),
    {
        let mut least: usize = 0;
        let mut j: usize = 1;
        proof {
            entry_le_total(rest@[0], rest@[0], sort);
        }
        while j < rest.len()
            invariant
                least < j <= rest@.len(),
                forall|k: int| 0 <= k < j ==> entry_le(rest@[least as int], #[trigger] rest@[k], sort),
            decreases rest@.len() - j,
        {
            if !precedes(&rest[least], &rest[j], sort) {
                proof {
                    entry_le_total(rest@[least as int], rest@[j as int], sort);
                    entry_le_total(rest@[j as int], rest@[j as int], sort);
                    assert forall|k: int| 0 <= k < j + 1 implies entry_le(
                        rest@[j as int],
                        #[trigger] rest@[k],
                        sort,
                    ) by {
                        if k < j {
                            entry_le_transitive(rest@[j as int], rest@[least as int], rest@[k], sort);
                        }
                    }
                }
                least = j;
            }
            j = j + 1;
        }
        let ghost before = sorted@;
        let ghost pending = rest@;
        let first = rest.remove(least);
        sorted.push(first);
        proof {
            before.to_multiset_ensures();
            pending.to_multiset_ensures();
            assert(pending.contains(first));
            assert(sorted@.to_multiset().add(rest@.to_multiset()) =~= before.to_multiset().add(
                pending.to_multiset(),
            ));
            assert forall|i: int, k: int|
                0 <= i < sorted@.len() && 0 <= k < rest@.len() implies entry_le(
                #[trigger] sorted@[i],
                #[trigger] rest@[k],
                sort,
            ) by {
                let at = if k < least {
                    k
                } else {
                    k + 1
                };
                assert(rest@[k] == pending[at]);
                if i < before.len() {
                    assert(sorted@[i] == before[i]);
                }
            }
            assert forall|i: int, k: int| 0 <= i <= k < sorted@.len() implies entry_le(
                #[trigger] sorted@[i],
                #[trigger] sorted@[k],
                sort,
            ) by {
                if k < before.len() {
                    assert(sorted@[i] == before[i] && sorted@[k] == before[k]);
                } else if i < before.len() {
                    assert(sorted@[i] == before[i]);
                    assert(sorted@[k] == pending[least as int]);
                } else {
                    entry_le_total(first, first, sort);
                }
            }
        }
    }
    assert(rest@.to_multiset() =~= Multiset::<DirEntryInfo>::empty()) by {
        rest@.to_multiset_ensures();
    }
    assert(sorted@.to_multiset().add(Multiset::<DirEntryInfo>::empty()) =~= sorted@.to_multiset());
    sorted
}

} // verus!
