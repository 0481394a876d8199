//! The cache of directory listings, keyed by path.

use vstd::prelude::*;
use vstd::hash_map::*;
use vstd::string::*;
use crate::error::IoFailure;
use crate::fs::{is_stale, listing_of, DirList, DirScan, SortOption};

verus! {

/// The cache after a forced reload of `path` from `disk`.
pub open spec fn reloaded(
    cache: Map<Seq<char>, DirList>,
    path: Seq<char>,
    disk: DirScan,
    sort: SortOption,
) -> Map<Seq<char>, DirList> {
    cache.insert(path, listing_of(disk, sort))
}

/// Whether a soft update of `path` has to scan: nothing is cached for it, or
/// what is cached is stale against the directory's stamp.
pub open spec fn wants_scan(
    cache: Map<Seq<char>, DirList>,
    path: Seq<char>,
    modified: u64,
    count: nat,
) -> bool {
    !cache.contains_key(path) || is_stale(cache[path], modified, count)
}

/// The cache after a soft update of `path` against `disk`.
pub open spec fn soft_updated(
    cache: Map<Seq<char>, DirList>,
    path: Seq<char>,
    disk: DirScan,
    sort: SortOption,
) -> Map<Seq<char>, DirList> {
    if wants_scan(cache, path, disk.modified, disk.entries@.len()) {
        reloaded(cache, path, disk, sort)
    } else {
        cache
    }
}

/// Previously listed directories. Background workers never touch it: whoever
/// changes the tree calls `reload` or `create_or_soft_update` afterwards.
pub struct DirectoryCache {
    lists: StringHashMap<DirList>,
}

impl View for DirectoryCache {
    type V = Map<Seq<char>, DirList>;

    closed spec fn view(&self) -> Map<Seq<char>, DirList> {
        self.lists@
    }
}

impl DirectoryCache {
    /// A cache that holds no listing.
    pub fn new() -> (cache: Self)
        ensures
            cache@ == Map::<Seq<char>, DirList>::empty(),
    {
        DirectoryCache { lists: StringHashMap::new() }
    }

    /// The cached listing of `path`.
    pub fn get(&self, path: &str) -> (list: Option<&DirList>)
        ensures
            match list {
                Some(l) => self@.contains_key(path@) && *l == self@[path@],
                None => !self@.contains_key(path@),
            },
    {
        self.lists.get(path)
    }

    /// Whether a soft update of `path` would scan, given the directory's
    /// modification time and number of entries now.
    pub fn needs_scan(&self, path: &str, modified: u64, count: usize) -> (scan: bool)
        ensures
            scan == wants_scan(self@, path@, modified, count as nat),
    {
        match self.lists.get(path) {
            None => true,
            Some(list) => list.modified != modified || list.entries.len() != count,
        }
    }

    /// Replaces the listing of `path` by what the scan found. A failed scan is
    /// handed back and leaves the cache as it was.
    pub fn reload(&mut self, path: &str, scan: Result<DirScan, IoFailure>, sort: SortOption) -> (done:
        Result<(), IoFailure>)
        ensures
            match scan {
                Ok(disk) => done is Ok && final(self)@ == reloaded(old(self)@, path@, disk, sort),
                Err(e) => done == Err::<(), IoFailure>(e) && final(self)@ == old(self)@,
            },
    {
        match scan {
            Ok(disk) => {
                self.lists.insert(String::from_str(path), DirList::from_scan(disk, sort));
                Ok(())
            },
            Err(e) => Err(e),
        }
    }

    /// Lists `path` if nothing is cached for it, refreshes the listing if it
    /// is stale against the scan, and otherwise leaves it untouched. A failed
    /// scan is handed back and leaves the cache as it was.
    pub fn create_or_soft_update(
        &mut self,
        path: &str,
        scan: Result<DirScan, IoFailure>,
        sort: SortOption,
    ) -> (done: Result<(), IoFailure>)
        ensures
            match scan {
                Ok(disk) => done is Ok && final(self)@ == soft_updated(
                    old(self)@,
                    path@,
                    disk,
                    sort,
                ),
                Err(e) => done == Err::<(), IoFailure>(e) && final(self)@ == old(self)@,
            },
    {
        match scan {
            Ok(disk) => {
                if self.needs_scan(path, disk.modified, disk.entries.len()) {
                    self.lists.insert(String::from_str(path), DirList::from_scan(disk, sort));
                }
                Ok(())
            },
            Err(e) => Err(e),
        }
    }
}

/// A soft update is idempotent: repeated against the same state of the disk,
/// it leaves the cache exactly as the first one did.
pub proof fn soft_update_idempotent(
    cache: Map<Seq<char>, DirList>,
    path: Seq<char>,
    disk: DirScan,
    sort: SortOption,
)
    ensures
        soft_updated(soft_updated(cache, path, disk, sort), path, disk, sort) == soft_updated(
            cache,
            path,
            disk,
            sort,
        ),
        !wants_scan(soft_updated(cache, path, disk, sort), path, disk.modified, disk.entries@.len()),
{
}

/// A reload shows the disk as the scan saw it, whatever was cached before:
/// also right after a soft update that judged the listing fresh.
pub proof fn reload_reflects_disk(
    cache: Map<Seq<char>, DirList>,
    path: Seq<char>,
    earlier: DirScan,
    disk: DirScan,
    sort: SortOption,
)
    ensures
        reloaded(cache, path, disk, sort)[path] == listing_of(disk, sort),
        reloaded(soft_updated(cache, path, earlier, sort), path, disk, sort)[path] == listing_of(
            disk,
            sort,
        ),
        forall|other: Seq<char>|
            other != path ==> (#[trigger] reloaded(cache, path, disk, sort).contains_key(other)
                <==> cache.contains_key(other)),
        forall|other: Seq<char>|
            other != path && cache.contains_key(other) ==> #[trigger] reloaded(
                cache,
                path,
                disk,
                sort,
            )[other] == cache[other],
{
}

} // verus!
