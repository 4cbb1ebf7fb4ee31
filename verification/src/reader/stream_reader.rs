//! The reader over a byte source, and the bridge between the source and the
//! engine's read and seek callbacks.

use std::io::{Read, Seek, SeekFrom};
use vstd::prelude::*;

use crate::archive::{Abandoned, ArchiveHandle, Handle, HandleMode, ARCHIVE_FATAL, ARCHIVE_OK};
use crate::entry::BorrowedEntry;
use crate::error::{ArchiveError, ErrorSlot};
use super::builder::{seekable, Builder, ReadHandle};
use super::file_reader::opened;
use super::reader::Reader;

verus! {

/// The length of the staging buffer that the engine reads from.
pub const PIPE_CAPACITY: usize = 8192;

/// `std::io::Error`, the error of a read or a seek of the source. It is
/// carried through as it is; what is read from it is read by
/// `raw_os_error` and by its `Display`.
#[verifier::external_type_specification]
#[verifier::external_body]
pub struct ExIoError(std::io::Error);

/// `std::io::Error::raw_os_error`: the operating system's code of an error,
/// if the error came from the operating system. Nothing is claimed of it.
pub assume_specification[ std::io::Error::raw_os_error ](error: &std::io::Error) -> (code: Option<
    i32,
>)
;

/// `libc::SEEK_SET`, the origin "from the start": 0.
#[verifier::external_body]
fn seek_set() -> (whence: i32)
    ensures
        whence == 0,
{
    libc::SEEK_SET
}

/// `libc::SEEK_CUR`, the origin "from the current position": 1.
#[verifier::external_body]
fn seek_cur() -> (whence: i32)
    ensures
        whence == 1,
{
    libc::SEEK_CUR
}

/// `libc::SEEK_END`, the origin "from the end": 2.
#[verifier::external_body]
fn seek_end() -> (whence: i32)
    ensures
        whence == 2,
{
    libc::SEEK_END
}

/// `std::io::Read::read` on the source, into the whole of `buffer`. The
/// buffer is lent as a slice, so its length stays. Nothing is claimed of the
/// count that comes back: a source is free to report any.
#[verifier::external_body]
fn source_read<T: Read>(reader: &mut T, buffer: &mut Vec<u8>) -> (outcome: Result<
    usize,
    std::io::Error,
>)
    ensures
        final(buffer)@.len() == old(buffer)@.len(),
{
    reader.read(&mut buffer[..])
}

/// `std::io::Seek::seek` on the source. Nothing is claimed of the position
/// that comes back.
#[verifier::external_body]
fn source_seek<T: Seek>(reader: &mut T, target: SeekTarget) -> (outcome: Result<
    u64,
    std::io::Error,
>) {
    reader.seek(
        match target {
            SeekTarget::Start(offset) => SeekFrom::Start(offset),
            SeekTarget::Current(offset) => SeekFrom::Current(offset),
            SeekTarget::End(offset) => SeekFrom::End(offset),
        },
    )
}

/// Where a seek goes: an offset from the start, from the current position
/// or from the end of the source.
#[derive(Debug, Clone, Copy, PartialEq, Eq, Structural)]
pub enum SeekTarget {
    Start(u64),
    Current(i64),
    End(i64),
}

/// What a failed read or seek of the source leaves to report: the operating
/// system's code, if there is one, and the error's text.
#[derive(Debug, Clone, PartialEq, Eq)]
pub struct SourceError {
    pub code: Option<i32>,
    pub message: String,
}

/// The answer to the engine's read callback: the count to return, and the
/// error to record on the handle before returning, if there is one.
#[derive(Debug, Clone, PartialEq, Eq)]
pub struct ReadSignal {
    pub count: isize,
    pub error: Option<ErrorSlot>,
}

/// The answer to the engine's seek callback: the position to return, and the
/// error to record on the handle before returning, if there is one.
#[derive(Debug, Clone, PartialEq, Eq)]
pub struct SeekSignal {
    pub position: i64,
    pub error: Option<ErrorSlot>,
}

/// The slot to record for a failure of the source. A failure without an
/// operating system code is recorded with the code 0.
pub open spec fn failure_slot(failure: SourceError) -> ErrorSlot {
    ErrorSlot {
        code: match failure.code {
            Some(code) => code,
            None => 0,
        },
        message: failure.message,
    }
}

/// The read callback's answer to what the source gave: the count of bytes
/// (zero at the end of the stream), or -1 and the error to record.
pub open spec fn spec_read_signal(outcome: Result<usize, SourceError>) -> ReadSignal {
    match outcome {
        Ok(size) => ReadSignal { count: size as isize, error: None },
        Err(failure) => ReadSignal { count: -1isize, error: Some(failure_slot(failure)) },
    }
}

/// The seek callback's answer to what the source gave: the new position, or
/// `ARCHIVE_FATAL` and the error to record.
pub open spec fn spec_seek_signal(outcome: Result<u64, SourceError>) -> SeekSignal {
    match outcome {
        Ok(position) => SeekSignal { position: position as i64, error: None },
        Err(failure) => SeekSignal {
            position: ARCHIVE_FATAL as i64,
            error: Some(failure_slot(failure)),
        },
    }
}

/// Whether `whence` is one of the three origins of a seek.
pub open spec fn is_whence(whence: i32) -> bool {
    whence == 0 || whence == 1 || whence == 2
}

/// The target of the engine's request to seek by `offset` from the origin
/// `whence`. An offset from the start is taken as unsigned.
pub open spec fn spec_seek_target(offset: i64, whence: i32) -> Option<SeekTarget> {
    if whence == 0 {
        Some(SeekTarget::Start(offset as u64))
    } else if whence == 1 {
        Some(SeekTarget::Current(offset))
    } else if whence == 2 {
        Some(SeekTarget::End(offset))
    } else {
        None
    }
}

fn slot_of(failure: SourceError) -> (slot: ErrorSlot)
    ensures
        slot == failure_slot(failure),
{
    let code = match failure.code {
        Some(code) => code,
        None => 0,
    };
    ErrorSlot { code, message: failure.message }
}

/// What a failure of the source leaves to report. The message is the
/// error's own text, as its `Display` writes it; the code is what the error
/// gives as the operating system's.
fn describe(error: &std::io::Error) -> (failure: SourceError)
    ensures
        vstd::string::to_string_from_display_ensures::<std::io::Error>(error, failure.message),
{
    SourceError { code: error.raw_os_error(), message: error.to_string() }
}

/// Decides the read callback's answer.
pub fn read_signal(outcome: Result<usize, SourceError>) -> (signal: ReadSignal)
    ensures
        signal == spec_read_signal(outcome),
{
    match outcome {
        Ok(size) => ReadSignal { count: size as isize, error: None },
        Err(failure) => ReadSignal { count: -1, error: Some(slot_of(failure)) },
    }
}

/// Decides the seek callback's answer.
pub fn seek_signal(outcome: Result<u64, SourceError>) -> (signal: SeekSignal)
    ensures
        signal == spec_seek_signal(outcome),
{
    match outcome {
        Ok(position) => SeekSignal { position: position as i64, error: None },
        Err(failure) => SeekSignal {
            position: ARCHIVE_FATAL as i64,
            error: Some(slot_of(failure)),
        },
    }
}

/// Reads the engine's request to seek. `None` exactly for a `whence`
/// that is no origin.
pub fn seek_target(offset: i64, whence: i32) -> (target: Option<SeekTarget>)
    ensures
        target == spec_seek_target(offset, whence),
{
    if whence == seek_set() {
        Some(SeekTarget::Start(offset as u64))
    } else if whence == seek_cur() {
        Some(SeekTarget::Current(offset))
    } else if whence == seek_end() {
        Some(SeekTarget::End(offset))
    } else {
        None
    }
}

/// The bridge: a byte source and the staging buffer that the engine reads
/// from. The engine keeps the bridge's address for as long as the reader
/// lives, so a bridge is put on the heap once and stays there.
pub struct Pipe<T> {
    reader: T,
    buffer: Vec<u8>,
}

impl<T> Pipe<T> {
    /// The byte source.
    pub closed spec fn source(&self) -> T {
        self.reader
    }

    /// What the staging buffer holds.
    pub closed spec fn staging(&self) -> Seq<u8> {
        self.buffer@
    }

    /// A bridge over `src`, with a zeroed staging buffer of `PIPE_CAPACITY`
    /// bytes.
    pub fn new(src: T) -> (pipe: Self)
        ensures
            pipe.source() == src,
            pipe.staging() == Seq::new(PIPE_CAPACITY as nat, |i: int| 0u8),
    {
        let buffer = vec![0u8; PIPE_CAPACITY];
        assert(buffer@ =~= Seq::new(PIPE_CAPACITY as nat, |i: int| 0u8));
        Pipe { reader: src, buffer }
    }

    /// The staging buffer, for the engine to read from.
    pub fn buffer(&self) -> (bytes: &[u8])
        ensures
            bytes@ == self.staging(),
    {
        self.buffer.as_slice()
    }

    /// Reads from the source into the staging buffer, from its start. The
    /// buffer keeps its length whatever the source does.
    pub fn read_bytes(&mut self) -> (outcome: Result<usize, std::io::Error>) where T: Read
        ensures
            final(self).staging().len() == old(self).staging().len(),
    {
        source_read(&mut self.reader, &mut self.buffer)
    }

    /// Moves the source to `pos`. The staging buffer is left as it is.
    pub fn seek(&mut self, pos: SeekTarget) -> (outcome: Result<u64, std::io::Error>) where T: Seek
        ensures
            final(self).staging() == old(self).staging(),
    {
        source_seek(&mut self.reader, pos)
    }

    /// Gives the source back.
    pub fn into_source(self) -> (src: T)
        ensures
            src == self.source(),
    {
        self.reader
    }
}

/// The engine's read callback, but for the pointers: fills the staging buffer
/// from the source and decides the answer. A source that fails is answered
/// with -1 and its error, never with a count.
pub fn stream_read_callback<T: Read>(pipe: &mut Pipe<T>) -> (signal: ReadSignal)
    ensures
        final(pipe).staging().len() == old(pipe).staging().len(),
        exists|outcome: Result<usize, SourceError>| signal == spec_read_signal(outcome),
        signal.error is Some ==> signal.count == -1,
{
    let outcome = match pipe.read_bytes() {
        Ok(size) => Ok(size),
        Err(error) => Err(describe(&error)),
    };
    read_signal(outcome)
}

/// The engine's seek callback, but for the pointers: moves the source and
/// decides the answer. A source that fails is answered with `ARCHIVE_FATAL`
/// and its error, never with a position.
pub fn stream_seek_callback<T: Seek>(pipe: &mut Pipe<T>, offset: i64, whence: i32) -> (signal:
    SeekSignal)
    requires
        is_whence(whence),
    ensures
        final(pipe).staging() == old(pipe).staging(),
        exists|outcome: Result<u64, SourceError>| signal == spec_seek_signal(outcome),
        signal.error is Some ==> signal.position == ARCHIVE_FATAL,
{
    let target = match seek_target(offset, whence) {
        Some(target) => target,
        None => SeekTarget::Start(0),
    };
    let outcome = match pipe.seek(target) {
        Ok(position) => Ok(position),
        Err(error) => Err(describe(&error)),
    };
    seek_signal(outcome)
}

/// A reader over a byte source. It owns the source, through the bridge, for
/// as long as it lives, and gives it back on request.
pub struct StreamReader<T> {
    handle: ReadHandle,
    entry: BorrowedEntry,
    pipe: Box<Pipe<T>>,
}

impl<T> StreamReader<T> {
    /// The reader's bridge. The engine drives the bridge during its calls,
    /// so nothing is known of the source from one call to the next.
    pub closed spec fn bridge(&self) -> Pipe<T> {
        *self.pipe
    }

    /// Puts the bridge over `src` on the heap, where it stays: its address is
    /// what the engine is given when the source is opened, so the bridge is
    /// made before the open and handed to `open` after it.
    pub fn prepare(src: T) -> (pipe: Box<Pipe<T>>)
        ensures
            pipe.source() == src,
            pipe.staging() == Seq::new(PIPE_CAPACITY as nat, |i: int| 0u8),
    {
        Box::new(Pipe::new(src))
    }

    /// The outcome of opening the source behind `pipe`. The builder and, on
    /// failure, the source are used up; from a failed open the handle comes
    /// back to be torn down.
    pub fn open(builder: Builder, pipe: Box<Pipe<T>>, status: i32, slot: ErrorSlot) -> (result:
        Result<Self, Abandoned>)
        ensures
            opened(builder, status, slot, result),
            result matches Ok(reader) ==> reader.bridge() == *pipe,
    {
        if status == ARCHIVE_OK {
            Ok(
                StreamReader {
                    handle: builder.into_read_handle(),
                    entry: BorrowedEntry::default(),
                    pipe,
                },
            )
        } else {
            Err(builder.abandon(slot))
        }
    }

    /// The outcome of registering the seek callback, which has to come
    /// before the open: the builder to open with if the engine accepted, the
    /// recorded error if it did not.
    pub fn open_seekable(builder: Builder, status: i32, slot: ErrorSlot) -> (result: Result<
        Builder,
        Abandoned,
    >)
        ensures
            seekable(builder, status, slot, result),
    {
        builder.seek_callback(status, slot)
    }

    /// Ends the reader and gives the source back, with the handle to tear
    /// down.
    pub fn into_inner(self) -> (parts: (T, ArchiveHandle))
        ensures
            parts.0 == self.bridge().source(),
            parts.1.spec_handle() == self.spec_handle(),
            parts.1.spec_mode() == HandleMode::Read,
    {
        let StreamReader { handle, entry: _, pipe } = self;
        let pipe: Pipe<T> = *pipe;
        (pipe.into_source(), handle.release())
    }
}

impl<T> Handle for StreamReader<T> {
    closed spec fn spec_handle(&self) -> usize {
        self.handle.address()
    }

    fn handle(&self) -> (raw: usize) {
        self.handle.raw()
    }
}

impl<T> Reader for StreamReader<T> {
    closed spec fn current(&self) -> BorrowedEntry {
        self.entry
    }

    fn entry(&mut self) -> (entry: &mut BorrowedEntry) {
        &mut self.entry
    }
}

/// A source that fails while the engine opens or reads it is never taken for
/// the end of the data: the read callback answers with a negative count and
/// records the failure, and an open that the engine then gives up with that
/// record on the handle fails with the source's own code and message.
pub proof fn lemma_read_failure_surfaces<T>(
    failure: SourceError,
    builder: Builder,
    status: i32,
    result: Result<StreamReader<T>, Abandoned>,
)
    requires
        status != ARCHIVE_OK,
        opened(builder, status, spec_read_signal(Err(failure)).error.unwrap(), result),
    ensures
        spec_read_signal(Err(failure)).count < 0,
        spec_read_signal(Err(failure)).error is Some,
        result matches Err(left) && left.error == ArchiveError::SystemError(
            match failure.code {
                Some(code) => code,
                None => 0,
            },
            failure.message,
        ),
{
}

/// A source that fails to seek is never taken to be at a position: the seek
/// callback answers with `ARCHIVE_FATAL`, which is no position, and records
/// the failure with the source's own code and message.
pub proof fn lemma_seek_failure_is_fatal(failure: SourceError)
    ensures
        spec_seek_signal(Err(failure)).position == ARCHIVE_FATAL,
        spec_seek_signal(Err(failure)).position < 0,
        spec_seek_signal(Err(failure)).error == Some(failure_slot(failure)),
{
}

} // verus!
