//! The reader over a file, by its name or by an open descriptor.

use vstd::prelude::*;
use vstd::utf8::encode_utf8;

use crate::archive::{Abandoned, ArchiveHandle, Handle, HandleMode, ARCHIVE_OK};
use crate::entry::{BorrowedEntry, Entry};
use crate::error::{system_error, ArchiveError, ArchiveResult, ErrorSlot};
use crate::text::{c_text, is_c_text};
use super::builder::{Builder, ReadHandle};
use super::reader::Reader;

verus! {

/// The size of the blocks in which the engine reads a file.
pub const BLOCK_SIZE: usize = 10240;

/// What is handed to the engine to open a file.
#[derive(Debug, Clone, PartialEq, Eq)]
pub enum OpenCall {
    /// The file's name, as bytes without a terminator.
    Filename { path: Vec<u8>, block_size: usize },
    /// An open descriptor. It stays the caller's: the reader does not close
    /// it, and it has to stay open for as long as the reader lives.
    Fd { fd: i32, block_size: usize },
}

impl OpenCall {
    /// Whether the call opens the file whose name has the bytes `name`, in
    /// blocks of `BLOCK_SIZE`.
    pub open spec fn is_filename(self, name: Seq<u8>) -> bool {
        match self {
            OpenCall::Filename { path, block_size } => path@ == name && block_size == BLOCK_SIZE,
            OpenCall::Fd { .. } => false,
        }
    }
}

/// A reader over a file.
pub struct FileReader {
    handle: ReadHandle,
    entry: BorrowedEntry,
}

/// Whether `failure` is what is left of `builder` after the engine refused
/// a step with what `slot` holds: the recorded error, and the builder's
/// handle to tear down.
pub open spec fn abandoned(builder: Builder, slot: ErrorSlot, failure: Abandoned) -> bool {
    &&& failure.error == system_error(slot)
    &&& failure.handle.spec_handle() == builder.spec_handle()
    &&& failure.handle.spec_mode() == HandleMode::Read
}

/// Whether `result` is what opening gives for the engine's answer: for
/// `ARCHIVE_OK` a reader on the builder's handle that is on no entry yet, for
/// any other status the recorded error and the handle to tear down.
pub open spec fn opened<R: Reader>(
    builder: Builder,
    status: i32,
    slot: ErrorSlot,
    result: Result<R, Abandoned>,
) -> bool {
    match result {
        Ok(reader) => status == ARCHIVE_OK && reader.spec_handle() == builder.spec_handle()
            && reader.current().record() is None,
        Err(failure) => status != ARCHIVE_OK && abandoned(builder, slot, failure),
    }
}

impl FileReader {
    /// What to hand to the engine to open the file named `file`: the name's
    /// bytes and the block size. A name with a zero byte in it is an
    /// `EncodingError`.
    pub fn open_call(file: &str) -> (result: ArchiveResult<OpenCall>)
        ensures
            match result {
                Ok(call) => is_c_text(file@) && call.is_filename(encode_utf8(file@)),
                Err(error) => !is_c_text(file@) && error == ArchiveError::EncodingError,
            },
    {
        match c_text(file) {
            Ok(path) => Ok(OpenCall::Filename { path, block_size: BLOCK_SIZE }),
            Err(error) => Err(error),
        }
    }

    /// What to hand to the engine to open the descriptor `fd`.
    pub fn open_fd_call(fd: i32) -> (call: OpenCall)
        ensures
            call == (OpenCall::Fd { fd, block_size: BLOCK_SIZE }),
    {
        OpenCall::Fd { fd, block_size: BLOCK_SIZE }
    }

    /// The outcome of opening a file by its name. The builder is used up
    /// whatever the outcome; from a failed open its handle comes back to be
    /// torn down.
    pub fn open(builder: Builder, status: i32, slot: ErrorSlot) -> (result: Result<Self, Abandoned>)
        ensures
            opened(builder, status, slot, result),
    {
        if status == ARCHIVE_OK {
            Ok(Self::new(builder.into_read_handle()))
        } else {
            Err(builder.abandon(slot))
        }
    }

    /// The outcome of opening a file by a descriptor. The builder is used up
    /// whatever the outcome.
    pub fn open_fd(builder: Builder, status: i32, slot: ErrorSlot) -> (result: Result<
        Self,
        Abandoned,
    >)
        ensures
            opened(builder, status, slot, result),
    {
        Self::open(builder, status, slot)
    }

    fn new(handle: ReadHandle) -> (reader: Self)
        ensures
            reader.spec_handle() == handle.address(),
            reader.current().record() is None,
    {
        FileReader { handle, entry: BorrowedEntry::default() }
    }

    /// Ends the reader, at any point of the archive: gives the handle up to
    /// be torn down.
    pub fn into_handle(self) -> (handle: ArchiveHandle)
        ensures
            handle.spec_handle() == self.spec_handle(),
            handle.spec_mode() == HandleMode::Read,
    {
        self.handle.release()
    }
}

impl Handle for FileReader {
    closed spec fn spec_handle(&self) -> usize {
        self.handle.address()
    }

    fn handle(&self) -> (raw: usize) {
        self.handle.raw()
    }
}

impl Reader for FileReader {
    closed spec fn current(&self) -> BorrowedEntry {
        self.entry
    }

    fn entry(&mut self) -> (entry: &mut BorrowedEntry) {
        &mut self.entry
    }
}

} // verus!
