//! The commands that change the tree and then bring the cache up to date.

use vstd::prelude::*;
use vstd::string::*;
use crate::cache::{reloaded, soft_updated, DirectoryCache};
use crate::error::IoFailure;
use crate::fs::{DirList, DirScan, SortOption};

verus! {

/// One tab: the directory it shows and the listings it has seen.
pub struct Tab {
    pub curr_path: String,
    pub history: DirectoryCache,
}

/// The path of the entry under the cursor of the listing that the tab
/// shows, if the tab has that listing and its cursor is on an entry.
pub open spec fn child_path(tab: Tab) -> Option<Seq<char>> {
    if tab.history@.contains_key(tab.curr_path@) {
        let list = tab.history@[tab.curr_path@];
        match list.index {
            Some(i) => if i < list.entries@.len() {
                Some(list.entries@[i as int].path@)
            } else {
                None
            },
            None => None,
        }
    } else {
        None
    }
}

impl Tab {
    /// A tab on `curr_path` that has listed nothing yet.
    pub fn new(curr_path: String) -> (tab: Tab)
        ensures
            tab.curr_path == curr_path,
            tab.history@ == Map::<Seq<char>, DirList>::empty(),
    {
        Tab { curr_path, history: DirectoryCache::new() }
    }

    /// The cached listing of the directory that the tab shows.
    pub fn curr_list_ref(&self) -> (list: Option<&DirList>)
        ensures
            match list {
                Some(l) => self.history@.contains_key(self.curr_path@) && *l
                    == self.history@[self.curr_path@],
                None => !self.history@.contains_key(self.curr_path@),
            },
    {
        self.history.get(self.curr_path.as_str())
    }
}

/// Brings the preview of the entry under the cursor up to date.
pub struct LoadChild {}

impl LoadChild {
    /// The path whose listing the preview shows: that of the entry under the
    /// cursor.
    pub fn preview_path(tab: &Tab) -> (path: Option<String>)
        ensures
            match path {
                Some(p) => child_path(*tab) == Some(p@),
                None => child_path(*tab) is None,
            },
    {
        match tab.curr_list_ref() {
            Some(list) => match list.selected() {
                Some(entry) => Some(entry.path.clone()),
                None => None,
            },
            None => None,
        }
    }

    /// Soft-updates the listing of the entry under the cursor, where there is
    /// such an entry and it is a directory; `scan` is what a scan of it found.
    /// Otherwise the tab is left as it is.
    pub fn load_child(
        tab: &mut Tab,
        is_dir: bool,
        scan: Result<DirScan, IoFailure>,
        sort: SortOption,
    ) -> (done: Result<(), IoFailure>)
        ensures
            final(tab).curr_path == old(tab).curr_path,
            child_path(*old(tab)) is Some && is_dir ==> match scan {
                Ok(disk) => done is Ok && final(tab).history@ == soft_updated(
                    old(tab).history@,
                    child_path(*old(tab)).unwrap(),
                    disk,
                    sort,
                ),
                Err(e) => done == Err::<(), IoFailure>(e) && final(tab).history@ == old(
                    tab,
                ).history@,
            },
            !(child_path(*old(tab)) is Some && is_dir) ==> done is Ok && final(tab).history@ == old(
                tab,
            ).history@,
    {
        let path = Self::preview_path(tab);
        match path {
            Some(p) => {
                if is_dir {
                    tab.history.create_or_soft_update(p.as_str(), scan, sort)
                } else {
                    Ok(())
                }
            },
            None => Ok(()),
        }
    }
}

/// The command that creates a directory.
#[derive(Clone, Debug)]
pub struct NewDirectory {
    path: String,
}

impl NewDirectory {
    /// The directory that the command creates.
    pub closed spec fn target(&self) -> Seq<char> {
        self.path@
    }

    /// The command that creates `path`.
    pub fn new(path: String) -> (cmd: Self)
        ensures
            cmd.target() == path@,
    {
        NewDirectory { path }
    }

    /// The word that calls the command.
    pub fn command() -> (name: &'static str)
        ensures
            name@ == "mkdir"@,
    {
        "mkdir"
    }

    /// The directory that the command creates.
    pub fn path(&self) -> (path: &String)
        ensures
            path@ == self.target(),
    {
        &self.path
    }

    /// The command as the status line shows it.
    pub fn to_text(&self) -> (text: String)
        ensures
            text@ == "mkdir"@,
    {
        String::from_str(Self::command())
    }

    /// What follows the creation of the directory in one tab: the listing of
    /// `curr_path`, the directory on screen, is reloaded from `scan`.
    pub fn execute(
        &self,
        tab: &mut Tab,
        curr_path: &str,
        scan: Result<DirScan, IoFailure>,
        sort: SortOption,
    ) -> (done: Result<(), IoFailure>)
        ensures
            final(tab).curr_path == old(tab).curr_path,
            match scan {
                Ok(disk) => done is Ok && final(tab).history@ == reloaded(
                    old(tab).history@,
                    curr_path@,
                    disk,
                    sort,
                ),
                Err(e) => done == Err::<(), IoFailure>(e) && final(tab).history@ == old(
                    tab,
                ).history@,
            },
    {
        tab.history.reload(curr_path, scan, sort)
    }
}

} // verus!
