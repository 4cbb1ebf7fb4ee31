//! The writer: the holder of a write handle.

use vstd::prelude::*;

use crate::archive::{ArchiveHandle, Handle, HandleMode};

verus! {

/// The one owner of a write handle. What it is torn down with follows from
/// the handle's mode.
pub struct Writer {
    handle: ArchiveHandle,
}

impl Writer {
    #[verifier::type_invariant]
    spec fn writes(self) -> bool {
        self.handle.spec_mode() == HandleMode::Write
    }

    /// A writer on a write handle.
    pub fn new(handle: ArchiveHandle) -> (writer: Self)
        requires
            handle.spec_mode() == HandleMode::Write,
        ensures
            writer.spec_handle() == handle.spec_handle(),
    {
        Writer { handle }
    }

    /// Ends the writer: gives the handle up to be torn down.
    pub fn into_handle(self) -> (handle: ArchiveHandle)
        ensures
            handle.spec_handle() == self.spec_handle(),
            handle.spec_mode() == HandleMode::Write,
    {
        proof {
            use_type_invariant(&self);
        }
        self.handle
    }
}

impl Handle for Writer {
    closed spec fn spec_handle(&self) -> usize {
        self.handle.spec_handle()
    }

    fn handle(&self) -> (raw: usize) {
        self.handle.handle()
    }
}

} // verus!
