//! The life of one background transfer: scheduled, released by a start
//! signal, and done with a byte total or an error.

use vstd::prelude::*;
use crate::error::{IoFailure, TransferError};
use crate::selection::SelectionStore;

verus! {

/// The three states of a worker.
#[derive(Clone, Copy, Debug, PartialEq, Eq, Structural)]
pub enum WorkerState {
    /// Created and waiting for the start signal.
    Scheduled,
    /// Moving the selected entries, one after the other.
    Running,
    /// Over, with a total or an error.
    Done,
}

/// One transfer of the selected entries into a destination directory.
pub struct TransferWorker {
    dest: String,
    paths: Vec<String>,
    state: WorkerState,
    moved: usize,
    total: u64,
    failure: Option<TransferError>,
}

impl TransferWorker {
    /// The state the worker is in.
    pub closed spec fn state(&self) -> WorkerState {
        self.state
    }

    /// The selected top-level entries.
    pub closed spec fn paths(&self) -> Seq<String> {
        self.paths@
    }

    /// The destination directory.
    pub closed spec fn dest(&self) -> Seq<char> {
        self.dest@
    }

    /// How many of the entries have reached the destination.
    pub closed spec fn moved(&self) -> nat {
        self.moved as nat
    }

    /// The bytes moved so far: the last progress value.
    pub closed spec fn total(&self) -> u64 {
        self.total
    }

    /// The error the worker ended with, if it did.
    pub closed spec fn failure(&self) -> Option<TransferError> {
        self.failure
    }

    /// What every worker keeps true: entries are finished in order, a running
    /// worker has an entry left, and only a finished one holds an error.
    pub closed spec fn wf(&self) -> bool {
        &&& self.moved <= self.paths@.len()
        &&& self.state == WorkerState::Running ==> self.moved < self.paths@.len()
        &&& self.state == WorkerState::Scheduled ==> self.moved == 0 && self.total == 0
        &&& self.failure is Some ==> self.state == WorkerState::Done
    }

    /// What `join` hands out in the worker's present state.
    pub open spec fn outcome(&self) -> Option<Result<u64, TransferError>> {
        if self.state() == WorkerState::Done {
            match self.failure() {
                Some(e) => Some(Err(e)),
                None => Some(Ok(self.total())),
            }
        } else {
            None
        }
    }

    /// A worker for `paths` into `dest`, waiting for its start signal.
    pub fn new(dest: String, paths: Vec<String>) -> (worker: Self)
        ensures
            worker.wf(),
            worker.state() == WorkerState::Scheduled,
            worker.paths() == paths@,
            worker.dest() == dest@,
            worker.moved() == 0,
            worker.total() == 0,
            worker.failure() is None,
    {
        TransferWorker {
            dest,
            paths,
            state: WorkerState::Scheduled,
            moved: 0,
            total: 0,
            failure: None,
        }
    }

    /// Gives the start signal. Only a scheduled worker takes it: it starts
    /// running, or is done at once with a total of zero where nothing was
    /// selected. The result says whether the signal was taken.
    pub fn begin(&mut self) -> (taken: bool)
        requires
            old(self).wf(),
        ensures
            final(self).wf(),
            taken == (old(self).state() == WorkerState::Scheduled),
            !taken ==> *final(self) == *old(self),
            taken ==> final(self).state() == (if old(self).paths().len() == 0 {
                WorkerState::Done
            } else {
                WorkerState::Running
            }),
            final(self).paths() == old(self).paths(),
            final(self).dest() == old(self).dest(),
            final(self).moved() == old(self).moved(),
            final(self).total() == old(self).total(),
            final(self).failure() == old(self).failure(),
    {
        if self.state == WorkerState::Scheduled {
            if self.paths.len() == 0 {
                self.state = WorkerState::Done;
            } else {
                self.state = WorkerState::Running;
            }
            true
        } else {
            false
        }
    }

    /// Drops the start signal unsent: a scheduled worker is done with a total
    /// of zero. On a worker that has started it changes nothing.
    pub fn cancel(&mut self) -> (cancelled: bool)
        requires
            old(self).wf(),
        ensures
            final(self).wf(),
            cancelled == (old(self).state() == WorkerState::Scheduled),
            !cancelled ==> *final(self) == *old(self),
            cancelled ==> final(self).outcome() == Some(Ok::<u64, TransferError>(0)),
            final(self).paths() == old(self).paths(),
            final(self).dest() == old(self).dest(),
    {
        if self.state == WorkerState::Scheduled {
            self.state = WorkerState::Done;
            true
        } else {
            false
        }
    }

    /// The entry that a running worker moves next.
    pub fn current(&self) -> (path: Option<&String>)
        requires
            self.wf(),
        ensures
            match path {
                Some(p) => self.state() == WorkerState::Running && *p == self.paths()[self.moved() as int],
                None => self.state() != WorkerState::Running,
            },
    {
        if self.state == WorkerState::Running {
            Some(&self.paths[self.moved])
        } else {
            None
        }
    }

    /// Records how the transfer of the current entry ended. A success adds
    /// its bytes to the total, which saturates, and publishes the new total
    /// as progress; after the last entry the worker is done. A failure ends
    /// the worker with that error. A worker that is not running ignores it.
    pub fn entry_finished(&mut self, result: Result<u64, IoFailure>) -> (progress: Option<u64>)
        requires
            old(self).wf(),
        ensures
            final(self).wf(),
            final(self).paths() == old(self).paths(),
            final(self).dest() == old(self).dest(),
            final(self).total() >= old(self).total(),
            old(self).state() != WorkerState::Running ==> progress is None && *final(self) == *old(
                self,
            ),
            old(self).state() == WorkerState::Running ==> match result {
                Ok(bytes) => {
                    &&& final(self).total() == (if old(self).total() + bytes <= u64::MAX {
                        old(self).total() + bytes
                    } else {
                        u64::MAX as int
                    })
                    &&& progress == Some(final(self).total())
                    &&& final(self).moved() == old(self).moved() + 1
                    &&& final(self).failure() is None
                    &&& final(self).state() == (if final(self).moved() == final(self).paths().len() {
                        WorkerState::Done
                    } else {
                        WorkerState::Running
                    })
                },
                Err(e) => {
                    &&& progress is None
                    &&& final(self).total() == old(self).total()
                    &&& final(self).moved() == old(self).moved()
                    &&& final(self).outcome() == Some(
                        Err::<u64, TransferError>(TransferError::Io(e)),
                    )
                },
            },
    {
        if self.state != WorkerState::Running {
            return None;
        }
        match result {
            Ok(bytes) => {
                let count: usize = self.paths.len();
                self.total = self.total.saturating_add(bytes);
                self.moved = self.moved + 1;
                if self.moved == count {
                    self.state = WorkerState::Done;
                }
                Some(self.total)
            },
            Err(e) => {
                self.state = WorkerState::Done;
                self.failure = Some(TransferError::Io(e));
                None
            },
        }
    }

    /// Records that the background context ended without a result. A worker
    /// that is already done keeps what it has.
    pub fn crashed(&mut self)
        requires
            old(self).wf(),
        ensures
            final(self).wf(),
            final(self).paths() == old(self).paths(),
            final(self).dest() == old(self).dest(),
            final(self).total() == old(self).total(),
            old(self).state() == WorkerState::Done ==> *final(self) == *old(self),
            old(self).state() != WorkerState::Done ==> final(self).outcome() == Some(
                Err::<u64, TransferError>(TransferError::WorkerFault),
            ),
    {
        if self.state != WorkerState::Done {
            self.state = WorkerState::Done;
            self.failure = Some(TransferError::WorkerFault);
        }
    }

    /// The last progress value.
    pub fn progress(&self) -> (bytes: u64)
        ensures
            bytes == self.total(),
    {
        self.total
    }

    /// The worker's state.
    pub fn status(&self) -> (state: WorkerState)
        ensures
            state == self.state(),
    {
        self.state
    }

    /// The selected entries.
    pub fn selected(&self) -> (paths: &Vec<String>)
        ensures
            paths@ == self.paths(),
    {
        &self.paths
    }

    /// The destination directory.
    pub fn destination(&self) -> (dest: &String)
        ensures
            dest@ == self.dest(),
    {
        &self.dest
    }

    /// The final result of a finished worker; `None` while it is not done.
    pub fn join(self) -> (result: Option<Result<u64, TransferError>>)
        requires
            self.wf(),
        ensures
            result == self.outcome(),
            match result {
                Some(Ok(total)) => total >= self.total(),
                _ => true,
            },
    {
        if self.state == WorkerState::Done {
            match self.failure {
                Some(e) => Some(Err(e)),
                None => Some(Ok(self.total)),
            }
        } else {
            None
        }
    }
}

/// Begins a cut against the current selection: takes the selection and hands
/// back a scheduled worker for it, or reports that nothing was selected. The
/// selection is consumed either way.
pub fn paste_cut(store: &mut SelectionStore, dest: String) -> (started: Result<
    TransferWorker,
    TransferError,
>)
    ensures
        final(store)@ is None,
        match started {
            Ok(worker) => {
                &&& old(store)@ is Some
                &&& old(store)@.unwrap().len() > 0
                &&& worker.wf()
                &&& worker.state() == WorkerState::Scheduled
                &&& worker.paths() == old(store)@.unwrap()
                &&& worker.dest() == dest@
                &&& worker.total() == 0
            },
            Err(e) => {
                &&& e is SelectionEmpty
                &&& (old(store)@ is None || old(store)@.unwrap().len() == 0)
            },
        },
{
    match store.take() {
        None => Err(TransferError::SelectionEmpty),
        Some(paths) => {
            if paths.len() == 0 {
                Err(TransferError::SelectionEmpty)
            } else {
                Ok(TransferWorker::new(dest, paths))
            }
        },
    }
}

} // verus!
