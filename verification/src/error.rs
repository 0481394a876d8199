//! The failures that the core reports instead of panicking.

use vstd::prelude::*;

verus! {

/// What kind of filesystem failure the caller met.
#[derive(Clone, Copy, Debug, PartialEq, Eq, Structural)]
pub enum IoKind {
    NotFound,
    PermissionDenied,
    AlreadyExists,
    CrossDevice,
    StorageFull,
    Other,
}

/// A failed filesystem call, with the path it was made on.
#[derive(Clone, Debug, PartialEq, Eq)]
pub struct IoFailure {
    pub kind: IoKind,
    pub path: String,
}

/// Why a requested transfer produced no byte total.
#[derive(Clone, Debug, PartialEq, Eq)]
pub enum TransferError {
    /// Nothing was marked when the transfer was requested.
    SelectionEmpty,
    /// A filesystem call failed.
    Io(IoFailure),
    /// The background context ended without handing back a result.
    WorkerFault,
}

impl TransferError {
    /// The message shown in the status line.
    pub fn message(&self) -> (text: &'static str)
        ensures
            text@ == match *self {
                TransferError::SelectionEmpty => "no files selected"@,
                TransferError::Io(_) => "filesystem operation failed"@,
                TransferError::WorkerFault => "transfer worker crashed"@,
            },
    {
        match self {
            TransferError::SelectionEmpty => "no files selected",
            TransferError::Io(_) => "filesystem operation failed",
            TransferError::WorkerFault => "transfer worker crashed",
        }
    }
}

} // verus!
