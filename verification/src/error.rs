//! Errors, and the bridge from the engine's error slot to a typed result.

use vstd::prelude::*;

use crate::archive::ARCHIVE_OK;

verus! {

/// What the engine last recorded on a handle: a code and a message. The slot
/// is overwritten by later calls, so it is read right after the call it
/// belongs to.
#[derive(Debug, Clone, PartialEq, Eq)]
pub struct ErrorSlot {
    pub code: i32,
    pub message: String,
}

#[derive(Debug, Clone, PartialEq, Eq)]
pub enum ArchiveError {
    /// The native allocator returned no handle or no entry.
    AllocationError,
    /// The engine reported a failure; code and message are the ones it
    /// recorded on the handle.
    SystemError(i32, String),
    /// A value cannot be represented in the text form that was asked for.
    EncodingError,
}

pub type ArchiveResult<T> = Result<T, ArchiveError>;

/// The error that stands for a failed engine call whose handle holds `slot`.
pub open spec fn system_error(slot: ErrorSlot) -> ArchiveError {
    ArchiveError::SystemError(slot.code, slot.message)
}

/// The result of an engine call that returned `status` and left `slot` on the
/// handle: success for `ARCHIVE_OK`, the recorded error for anything else.
pub open spec fn status_result(status: i32, slot: ErrorSlot) -> ArchiveResult<()> {
    if status == ARCHIVE_OK {
        Ok(())
    } else {
        Err(system_error(slot))
    }
}

impl ArchiveError {
    /// Converts what the engine recorded on a handle into an error.
    pub fn from_slot(slot: ErrorSlot) -> (error: ArchiveError)
        ensures
            error == system_error(slot),
    {
        ArchiveError::SystemError(slot.code, slot.message)
    }

    /// The engine's code of a `SystemError`, and `None` for the other kinds.
    pub fn code(&self) -> (code: Option<i32>)
        ensures
            code == match *self {
                ArchiveError::SystemError(c, _) => Some(c),
                _ => None,
            },
    {
        match self {
            ArchiveError::SystemError(c, _) => Some(*c),
            _ => None,
        }
    }
}

/// Checks the status of an engine call. Every status but `ARCHIVE_OK` is a
/// failure and carries the slot's code and message.
pub fn check_status(status: i32, slot: ErrorSlot) -> (result: ArchiveResult<()>)
    ensures
        result == status_result(status, slot),
{
    if status == ARCHIVE_OK {
        Ok(())
    } else {
        Err(ArchiveError::from_slot(slot))
    }
}

} // verus!
