//! The paths marked for the next cut or copy.

use vstd::prelude::*;

verus! {

/// Holder of the marked paths. A selection is consumed by the first `take`.
pub struct SelectionStore {
    marked: Option<Vec<String>>,
}

/// The store after a `take`: nothing is marked any more.
pub open spec fn after_take(before: Option<Seq<String>>) -> Option<Seq<String>> {
    None
}

/// What a `take` hands out: whatever was marked.
pub open spec fn taken(before: Option<Seq<String>>) -> Option<Seq<String>> {
    before
}

/// The store after `mark(paths)`: exactly `paths`, whatever was there before.
pub open spec fn after_mark(before: Option<Seq<String>>, paths: Seq<String>) -> Option<
    Seq<String>,
> {
    Some(paths)
}

impl View for SelectionStore {
    type V = Option<Seq<String>>;

    closed spec fn view(&self) -> Option<Seq<String>> {
        match self.marked {
            Some(paths) => Some(paths@),
            None => None,
        }
    }
}

impl SelectionStore {
    /// A store with nothing marked.
    pub fn new() -> (store: Self)
        ensures
            store@ is None,
    {
        SelectionStore { marked: None }
    }

    /// Replaces the current selection by `paths`.
    pub fn mark(&mut self, paths: Vec<String>)
        ensures
            final(self)@ == after_mark(old(self)@, paths@),
    {
        self.marked = Some(paths);
    }

    /// Hands out the current selection and clears it.
    pub fn take(&mut self) -> (paths: Option<Vec<String>>)
        ensures
            final(self)@ == after_take(old(self)@),
            match paths {
                Some(v) => taken(old(self)@) == Some(v@),
                None => taken(old(self)@) is None,
            },
    {
        self.marked.take()
    }

    /// Whether a selection is waiting to be taken.
    pub fn is_marked(&self) -> (b: bool)
        ensures
            b == (self@ is Some),
    {
        self.marked.is_some()
    }
}

/// A selection is consumed exactly once: of two takes with no mark between
/// them, the first hands out what was marked and the second hands out nothing.
pub proof fn take_consumes_once(before: Option<Seq<String>>)
    ensures
        taken(before) == before,
        taken(after_take(before)) is None,
        after_take(after_take(before)) is None,
{
}

/// A mark replaces whatever was marked, so the next take hands out the paths
/// of the latest mark only.
pub proof fn mark_then_take(before: Option<Seq<String>>, paths: Seq<String>)
    ensures
        taken(after_mark(before, paths)) == Some(paths),
{
}

} // verus!
