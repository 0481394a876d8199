//! Plain descriptions of what a directory scan finds.

use vstd::prelude::*;
use crate::sort::{ordered, sort_entries};

verus! {

/// The type of a filesystem entry; a symbolic link is not followed.
#[derive(Clone, Copy, Debug, PartialEq, Eq, Structural)]
pub enum FileKind {
    Directory,
    File,
    Symlink,
    /// A device, socket or anything else that is never transferred.
    Other,
}

/// What a listing is ordered by.
#[derive(Clone, Copy, Debug, PartialEq, Eq, Structural)]
pub enum SortKey {
    Name,
    Size,
    Modified,
}

/// The ordering asked of a scan.
#[derive(Clone, Copy, Debug, PartialEq, Eq, Structural)]
pub struct SortOption {
    pub key: SortKey,
    pub reverse: bool,
    pub directories_first: bool,
}

/// One entry of a directory listing.
#[derive(Clone, Debug, PartialEq, Eq)]
pub struct DirEntryInfo {
    pub name: String,
    pub path: String,
    pub kind: FileKind,
    pub len: u64,
    pub modified: u64,
    pub mode: u32,
    pub link_target: Option<String>,
    pub mimetype: Option<String>,
}

/// The state of a directory on disk as one scan saw it: its own modification
/// time and its entries, in the order that the sort option of the scan asked.
#[derive(Debug)]
pub struct DirScan {
    pub modified: u64,
    pub entries: Vec<DirEntryInfo>,
}

/// A cached listing: the scan it was filled from, the ordering it was scanned
/// under and the cursor. The modification time is its freshness marker.
#[derive(Debug)]
pub struct DirList {
    pub modified: u64,
    pub entries: Vec<DirEntryInfo>,
    pub index: Option<usize>,
    pub sort: SortOption,
}

/// The listing that a scan becomes: the cursor on the first entry, if any.
pub open spec fn listing_of(disk: DirScan, sort: SortOption) -> DirList {
    DirList {
        modified: disk.modified,
        entries: disk.entries,
        index: if disk.entries@.len() > 0 {
            Some(0usize)
        } else {
            None
        },
        sort: sort,
    }
}

/// The cheap staleness signal: the directory's modification time or its
/// number of entries differs from what the listing holds.
pub open spec fn is_stale(cached: DirList, modified: u64, count: nat) -> bool {
    cached.modified != modified || cached.entries@.len() != count
}

impl DirScan {
    /// What a scan found, put in the order that `sort` asks.
    pub fn new(modified: u64, entries: Vec<DirEntryInfo>, sort: SortOption) -> (scan: DirScan)
        ensures
            scan.modified == modified,
            ordered(scan.entries@, sort),
            scan.entries@.to_multiset() == entries@.to_multiset(),
    {
        DirScan { modified, entries: sort_entries(entries, sort) }
    }
}

impl DirList {
    /// Fills a listing from a scan.
    pub fn from_scan(disk: DirScan, sort: SortOption) -> (list: DirList)
        ensures
            list == listing_of(disk, sort),
    {
        let index = if disk.entries.len() > 0 {
            Some(0usize)
        } else {
            None
        };
        DirList { modified: disk.modified, entries: disk.entries, index, sort }
    }

    /// The entry under the cursor.
    pub fn selected(&self) -> (entry: Option<&DirEntryInfo>)
        ensures
            match entry {
                Some(e) => self.index is Some && self.index.unwrap() < self.entries@.len() && *e
                    == self.entries@[self.index.unwrap() as int],
                None => self.index is None || self.index.unwrap() >= self.entries@.len(),
            },
    {
        match self.index {
            Some(i) => {
                if i < self.entries.len() {
                    Some(&self.entries[i])
                } else {
                    None
                }
            },
            None => None,
        }
    }
}

} // verus!
