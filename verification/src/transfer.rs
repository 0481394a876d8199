//! The decisions of moving one filesystem entry: which call comes next, what
//! a failure means, and how many bytes the entry counts for.
//!
//! The caller makes each filesystem call and reports how it went; the engine
//! answers with the call to make next.

use vstd::prelude::*;
use crate::fs::FileKind;

verus! {

/// Where the transfer of one entry stands: the filesystem call to make next,
/// or the end.
#[derive(Clone, Copy, Debug, PartialEq, Eq, Structural)]
pub enum Phase {
    /// Read the entry's type and size, without following a link.
    Inspect,
    /// Rename the whole directory to its destination.
    RenameDir { bytes: u64 },
    /// Rename the file to its destination.
    RenameFile { len: u64 },
    /// Create the destination directory.
    CreateDir,
    /// Transfer the next child into the new directory.
    Children { total: u64 },
    /// Remove the emptied source directory.
    RemoveDir { total: u64 },
    /// Copy the file's bytes to the destination.
    CopyFile { len: u64 },
    /// Remove the copied source file.
    RemoveFile { len: u64 },
    /// Read the target of the link.
    ReadLink,
    /// Create a link with the same target at the destination.
    MakeLink,
    /// Remove the source link.
    RemoveLink,
    /// The entry is at its destination and counts for `total` bytes.
    Done { total: u64 },
    /// A call failed: the rest of this subtree is not touched.
    Failed,
}

/// How the call of the current phase went.
#[derive(Clone, Copy, Debug, PartialEq, Eq, Structural)]
pub enum Outcome {
    /// The entry's type. `len` is a regular file's length, and for a
    /// directory the sum of the lengths of the regular files below it.
    Inspected { kind: FileKind, len: u64 },
    /// The call succeeded. In `Children`: no child is left.
    Succeeded,
    /// One child reached its destination and counts for `bytes`.
    ChildMoved { bytes: u64 },
    /// The call failed, or a child's transfer did.
    Failed,
}

/// The phase that follows `phase` once its call went as `outcome` says.
pub open spec fn step(phase: Phase, outcome: Outcome) -> Phase {
    match (phase, outcome) {
        (Phase::Inspect, Outcome::Inspected { kind: FileKind::Directory, len }) => Phase::RenameDir {
            bytes: len,
        },
        (Phase::Inspect, Outcome::Inspected { kind: FileKind::File, len }) => Phase::RenameFile {
            len,
        },
        (Phase::Inspect, Outcome::Inspected { kind: FileKind::Symlink, len }) => Phase::ReadLink,
        (Phase::Inspect, Outcome::Inspected { kind: FileKind::Other, len }) => Phase::Done {
            total: 0,
        },
        (Phase::RenameDir { bytes }, Outcome::Succeeded) => Phase::Done { total: bytes },
        (Phase::RenameDir { bytes }, Outcome::Failed) => Phase::CreateDir,
        (Phase::CreateDir, Outcome::Succeeded) => Phase::Children { total: 0 },
        (Phase::Children { total }, Outcome::ChildMoved { bytes }) => if total + bytes
            <= u64::MAX {
            Phase::Children { total: (total + bytes) as u64 }
        } else {
            Phase::Children { total: u64::MAX }
        },
        (Phase::Children { total }, Outcome::Succeeded) => Phase::RemoveDir { total },
        (Phase::RemoveDir { total }, Outcome::Succeeded) => Phase::Done { total },
        (Phase::RenameFile { len }, Outcome::Succeeded) => Phase::Done { total: len },
        (Phase::RenameFile { len }, Outcome::Failed) => Phase::CopyFile { len },
        (Phase::CopyFile { len }, Outcome::Succeeded) => Phase::RemoveFile { len },
        (Phase::RemoveFile { len }, Outcome::Succeeded) => Phase::Done { total: len },
        (Phase::ReadLink, Outcome::Succeeded) => Phase::MakeLink,
        (Phase::MakeLink, Outcome::Succeeded) => Phase::RemoveLink,
        (Phase::RemoveLink, Outcome::Succeeded) => Phase::Done { total: 0 },
        (Phase::Done { total }, _) => Phase::Done { total },
        _ => Phase::Failed,
    }
}

/// Whether the transfer of the entry is over.
pub open spec fn is_over(phase: Phase) -> bool {
    phase is Done || phase is Failed
}

/// The decisions of one entry's transfer.
pub struct TransferEngine {}

impl TransferEngine {
    /// The phase every transfer starts in.
    pub fn start() -> (phase: Phase)
        ensures
            phase == Phase::Inspect,
    {
        Phase::Inspect
    }

    /// The phase that follows once the call of `phase` went as `outcome`
    /// says. The byte count of a directory's children saturates.
    pub fn advance(phase: Phase, outcome: Outcome) -> (next: Phase)
        ensures
            next == step(phase, outcome),
    {
        match phase {
            Phase::Inspect => match outcome {
                Outcome::Inspected { kind, len } => match kind {
                    FileKind::Directory => Phase::RenameDir { bytes: len },
                    FileKind::File => Phase::RenameFile { len },
                    FileKind::Symlink => Phase::ReadLink,
                    FileKind::Other => Phase::Done { total: 0 },
                },
                _ => Phase::Failed,
            },
            Phase::RenameDir { bytes } => match outcome {
                Outcome::Succeeded => Phase::Done { total: bytes },
                Outcome::Failed => Phase::CreateDir,
                _ => Phase::Failed,
            },
            Phase::CreateDir => match outcome {
                Outcome::Succeeded => Phase::Children { total: 0 },
                _ => Phase::Failed,
            },
            Phase::Children { total } => match outcome {
                Outcome::ChildMoved { bytes } => Phase::Children {
                    total: total.saturating_add(bytes),
                },
                Outcome::Succeeded => Phase::RemoveDir { total },
                _ => Phase::Failed,
            },
            Phase::RemoveDir { total } => match outcome {
                Outcome::Succeeded => Phase::Done { total },
                _ => Phase::Failed,
            },
            Phase::RenameFile { len } => match outcome {
                Outcome::Succeeded => Phase::Done { total: len },
                Outcome::Failed => Phase::CopyFile { len },
                _ => Phase::Failed,
            },
            Phase::CopyFile { len } => match outcome {
                Outcome::Succeeded => Phase::RemoveFile { len },
                _ => Phase::Failed,
            },
            Phase::RemoveFile { len } => match outcome {
                Outcome::Succeeded => Phase::Done { total: len },
                _ => Phase::Failed,
            },
            Phase::ReadLink => match outcome {
                Outcome::Succeeded => Phase::MakeLink,
                _ => Phase::Failed,
            },
            Phase::MakeLink => match outcome {
                Outcome::Succeeded => Phase::RemoveLink,
                _ => Phase::Failed,
            },
            Phase::RemoveLink => match outcome {
                Outcome::Succeeded => Phase::Done { total: 0 },
                _ => Phase::Failed,
            },
            Phase::Done { total } => Phase::Done { total },
            Phase::Failed => Phase::Failed,
        }
    }

    /// Whether no call is left to make.
    pub fn finished(phase: Phase) -> (over: bool)
        ensures
            over == is_over(phase),
    {
        match phase {
            Phase::Done { .. } => true,
            Phase::Failed => true,
            _ => false,
        }
    }

    /// The bytes that a finished entry counts for.
    pub fn bytes_moved(phase: Phase) -> (bytes: Option<u64>)
        ensures
            bytes == match phase {
                Phase::Done { total } => Some(total),
                _ => None::<u64>,
            },
    {
        match phase {
            Phase::Done { total } => Some(total),
            _ => None,
        }
    }
}

/// A regular file counts for its length on either way: renamed at once, or
/// copied and then removed when the rename fails.
pub proof fn file_counts_its_length(len: u64)
    ensures
        step(Phase::Inspect, Outcome::Inspected { kind: FileKind::File, len }) == (Phase::RenameFile {
            len,
        }),
        step(Phase::RenameFile { len }, Outcome::Succeeded) == (Phase::Done { total: len }),
        step(
            step(step(Phase::RenameFile { len }, Outcome::Failed), Outcome::Succeeded),
            Outcome::Succeeded,
        ) == (Phase::Done { total: len }),
{
}

/// A link is recreated and removed without ever being followed, and counts
/// for nothing; an entry of any other type is left alone and counts for
/// nothing.
pub proof fn links_and_others_count_nothing(len: u64)
    ensures
        step(
            step(
                step(
                    step(Phase::Inspect, Outcome::Inspected { kind: FileKind::Symlink, len }),
                    Outcome::Succeeded,
                ),
                Outcome::Succeeded,
            ),
            Outcome::Succeeded,
        ) == (Phase::Done { total: 0 }),
        step(Phase::Inspect, Outcome::Inspected { kind: FileKind::Other, len }) == (Phase::Done {
            total: 0,
        }),
{
}

/// The source directory is removed only after every child succeeded, and a
/// directory that had to be copied counts for what its children counted for.
pub proof fn directory_removed_after_children(phase: Phase, outcome: Outcome)
    ensures
        step(phase, outcome) is RemoveDir ==> phase is Children && outcome == Outcome::Succeeded
            && step(phase, outcome)->RemoveDir_total == phase->Children_total,
        phase is Children ==> step(phase, Outcome::Failed) == Phase::Failed,
        phase is RemoveDir ==> step(phase, Outcome::Succeeded) == (Phase::Done {
            total: phase->RemoveDir_total,
        }),
{
}

/// The first failure ends the entry's transfer, except that of a rename,
/// which falls back to copying; and nothing leaves a finished state.
pub proof fn failure_aborts(phase: Phase, outcome: Outcome)
    ensures
        !(phase is RenameDir) && !(phase is RenameFile) && !(phase is Done) ==> step(
            phase,
            Outcome::Failed,
        ) == Phase::Failed,
        phase is RenameDir ==> step(phase, Outcome::Failed) == Phase::CreateDir,
        is_over(phase) ==> step(phase, outcome) == phase,
{
}

/// The running total of a directory's children never goes down.
pub proof fn children_total_monotone(total: u64, bytes: u64)
    ensures
        step(Phase::Children { total }, Outcome::ChildMoved { bytes })->Children_total >= total,
        total + bytes <= u64::MAX ==> step(
            Phase::Children { total },
            Outcome::ChildMoved { bytes },
        )->Children_total == total + bytes,
{
}

} // verus!
