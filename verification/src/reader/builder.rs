//! The builder: a fresh read handle that is told what to support and is then
//! used up by opening a source.

use vstd::prelude::*;

use crate::archive::{
    Abandoned, ArchiveHandle, Capability, Handle, HandleMode, ReadCompression, ReadFilter,
    ReadFormat, ARCHIVE_OK,
};
use crate::error::{check_status, status_result, ArchiveError, ArchiveResult, ErrorSlot};
use super::file_reader::{abandoned, opened, FileReader};
use super::stream_reader::{Pipe, StreamReader};

verus! {

/// The capabilities after the engine answered a registration with `status`:
/// one more if it accepted, the same if it did not.
pub open spec fn registered(before: Seq<Capability>, capability: Capability, status: i32) -> Seq<
    Capability,
> {
    if status == ARCHIVE_OK {
        before.push(capability)
    } else {
        before
    }
}

/// Whether `result` is what registering the seek callback gives for the
/// engine's answer: for `ARCHIVE_OK` the same builder with one capability
/// more, for any other status the recorded error and the handle to tear
/// down.
pub open spec fn seekable(
    builder: Builder,
    status: i32,
    slot: ErrorSlot,
    result: Result<Builder, Abandoned>,
) -> bool {
    match result {
        Ok(ready) => status == ARCHIVE_OK && ready.spec_handle() == builder.spec_handle()
            && ready.capabilities() == builder.capabilities().push(Capability::SeekCallback),
        Err(failure) => status != ARCHIVE_OK && abandoned(builder, slot, failure),
    }
}

/// A handle that is known to be a read handle.
pub(crate) struct ReadHandle {
    handle: ArchiveHandle,
}

impl ReadHandle {
    #[verifier::type_invariant]
    spec fn reads(self) -> bool {
        self.handle.spec_mode() == HandleMode::Read
    }

    /// The address of the engine instance.
    pub(crate) closed spec fn address(&self) -> usize {
        self.handle.spec_handle()
    }

    pub(crate) fn new(raw: usize) -> (handle: Option<Self>)
        ensures
            handle is None <==> raw == 0,
            handle matches Some(h) ==> h.address() == raw,
    {
        match ArchiveHandle::from_raw(raw, HandleMode::Read) {
            Some(handle) => Some(ReadHandle { handle }),
            None => None,
        }
    }

    pub(crate) fn raw(&self) -> (raw: usize)
        ensures
            raw == self.address(),
            raw != 0,
    {
        self.handle.handle()
    }

    pub(crate) fn release(self) -> (handle: ArchiveHandle)
        ensures
            handle.spec_handle() == self.address(),
            handle.spec_mode() == HandleMode::Read,
    {
        proof {
            use_type_invariant(&self);
        }
        self.handle
    }
}

/// A reader in the making. Each `support_*` call takes what the engine
/// answered to one registration; a builder that was refused one can go on to
/// the next. Opening uses the builder up, so nothing can be registered on a
/// handle that is open.
pub struct Builder {
    handle: ReadHandle,
    accepted: Ghost<Seq<Capability>>,
}

impl Builder {
    /// The capabilities that the engine accepted, in the order of the calls.
    pub closed spec fn capabilities(&self) -> Seq<Capability> {
        self.accepted@
    }

    /// A builder on the read handle that the engine allocated at `raw`. A
    /// null address means that the allocation failed.
    pub fn new(raw: usize) -> (result: ArchiveResult<Builder>)
        ensures
            match result {
                Ok(builder) => raw != 0 && builder.spec_handle() == raw
                    && builder.capabilities() == Seq::<Capability>::empty(),
                Err(error) => raw == 0 && error == ArchiveError::AllocationError,
            },
    {
        match ReadHandle::new(raw) {
            Some(handle) => Ok(Builder { handle, accepted: Ghost(Seq::empty()) }),
            None => Err(ArchiveError::AllocationError),
        }
    }

    fn accept(&mut self, capability: Ghost<Capability>, status: i32, slot: ErrorSlot) -> (result:
        ArchiveResult<()>)
        ensures
            result == status_result(status, slot),
            final(self).spec_handle() == old(self).spec_handle(),
            final(self).capabilities() == registered(old(self).capabilities(), capability@, status),
    {
        if status == ARCHIVE_OK {
            proof {
                self.accepted@ = self.accepted@.push(capability@);
            }
        }
        check_status(status, slot)
    }

    /// The outcome of asking the engine to support a decompression.
    pub fn support_compression(
        &mut self,
        compression: ReadCompression,
        status: i32,
        slot: ErrorSlot,
    ) -> (result: ArchiveResult<()>)
        ensures
            result == status_result(status, slot),
            final(self).spec_handle() == old(self).spec_handle(),
            final(self).capabilities() == registered(
                old(self).capabilities(),
                Capability::Compression(compression),
                status,
            ),
    {
        self.accept(Ghost(Capability::Compression(compression)), status, slot)
    }

    /// The outcome of asking the engine to support a filter.
    pub fn support_filter(&mut self, filter: ReadFilter, status: i32, slot: ErrorSlot) -> (result:
        ArchiveResult<()>)
        ensures
            result == status_result(status, slot),
            final(self).spec_handle() == old(self).spec_handle(),
            final(self).capabilities() == registered(
                old(self).capabilities(),
                Capability::Filter(filter),
                status,
            ),
    {
        self.accept(Ghost(Capability::Filter(filter)), status, slot)
    }

    /// The outcome of asking the engine to support a format.
    pub fn support_format(&mut self, format: ReadFormat, status: i32, slot: ErrorSlot) -> (result:
        ArchiveResult<()>)
        ensures
            result == status_result(status, slot),
            final(self).spec_handle() == old(self).spec_handle(),
            final(self).capabilities() == registered(
                old(self).capabilities(),
                Capability::Format(format),
                status,
            ),
    {
        self.accept(Ghost(Capability::Format(format)), status, slot)
    }

    /// The outcome of registering the seek callback. Unlike a `support_*`
    /// call this one uses the builder up if the engine refuses.
    pub fn seek_callback(self, status: i32, slot: ErrorSlot) -> (result: Result<Builder, Abandoned>)
        ensures
            seekable(self, status, slot, result),
    {
        let mut builder = self;
        match builder.accept(Ghost(Capability::SeekCallback), status, slot) {
            Ok(()) => Ok(builder),
            Err(error) => Err(Abandoned { error, handle: builder.into_handle() }),
        }
    }

    /// Gives the builder up after the engine refused a step: what `slot`
    /// holds is the error, and the handle is left to be torn down.
    pub(crate) fn abandon(self, slot: ErrorSlot) -> (failure: Abandoned)
        ensures
            abandoned(self, slot, failure),
    {
        Abandoned { error: ArchiveError::from_slot(slot), handle: self.into_handle() }
    }

    /// The outcome of opening a file by its name.
    pub fn open_file(self, status: i32, slot: ErrorSlot) -> (result: Result<FileReader, Abandoned>)
        ensures
            opened(self, status, slot, result),
    {
        FileReader::open(self, status, slot)
    }

    /// The outcome of opening a file by a descriptor.
    pub fn open_fd(self, status: i32, slot: ErrorSlot) -> (result: Result<FileReader, Abandoned>)
        ensures
            opened(self, status, slot, result),
    {
        FileReader::open_fd(self, status, slot)
    }

    /// The outcome of opening the byte source behind `pipe`.
    pub fn open_stream<T>(self, pipe: Box<Pipe<T>>, status: i32, slot: ErrorSlot) -> (result:
        Result<StreamReader<T>, Abandoned>)
        ensures
            opened(self, status, slot, result),
            result matches Ok(reader) ==> reader.bridge() == *pipe,
    {
        StreamReader::open(self, pipe, status, slot)
    }

    /// Gives up the handle, as it is, to whatever is built on it next.
    pub fn into_handle(self) -> (handle: ArchiveHandle)
        ensures
            handle.spec_handle() == self.spec_handle(),
            handle.spec_mode() == HandleMode::Read,
    {
        self.handle.release()
    }

    pub(crate) fn into_read_handle(self) -> (handle: ReadHandle)
        ensures
            handle.address() == self.spec_handle(),
    {
        self.handle
    }
}

impl Handle for Builder {
    closed spec fn spec_handle(&self) -> usize {
        self.handle.address()
    }

    fn handle(&self) -> (raw: usize) {
        self.handle.raw()
    }
}

} // verus!
