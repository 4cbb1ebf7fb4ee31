//! The engine's vocabulary: status codes, file types, the capabilities a
//! reader can be asked to support, and the handle that owns one engine
//! instance.

use vstd::prelude::*;
use vstd::utf8::encode_utf8;

use crate::error::{ArchiveError, ArchiveResult};
use crate::text::{c_text, is_c_text};

verus! {

/// The status of a call that went through.
pub const ARCHIVE_OK: i32 = 0;

/// The status that ends a sequence: no further header, no further block.
pub const ARCHIVE_EOF: i32 = 1;

/// The call may be tried again.
pub const ARCHIVE_RETRY: i32 = -10;

/// The call went through in part.
pub const ARCHIVE_WARN: i32 = -20;

/// The current operation failed; the handle can still be used.
pub const ARCHIVE_FAILED: i32 = -25;

/// The handle can no longer be used.
pub const ARCHIVE_FATAL: i32 = -30;

/// The mask of the file type bits, and the code of each file type.
pub const AE_IFMT: u32 = 0o170000;

pub const AE_IFREG: u32 = 0o100000;

pub const AE_IFLNK: u32 = 0o120000;

pub const AE_IFSOCK: u32 = 0o140000;

pub const AE_IFCHR: u32 = 0o020000;

pub const AE_IFBLK: u32 = 0o060000;

pub const AE_IFDIR: u32 = 0o040000;

pub const AE_IFIFO: u32 = 0o010000;

#[derive(Debug, Clone, Copy, PartialEq, Eq, Structural)]
pub enum FileType {
    BlockDevice,
    CharacterDevice,
    SymbolicLink,
    Directory,
    NamedPipe,
    Mount,
    RegularFile,
    Socket,
    Unknown,
}

impl FileType {
    /// The engine's numeric code of a file type. `Unknown` is the code 0.
    pub open spec fn spec_code(self) -> u32 {
        match self {
            FileType::BlockDevice => AE_IFBLK,
            FileType::CharacterDevice => AE_IFCHR,
            FileType::SymbolicLink => AE_IFLNK,
            FileType::Directory => AE_IFDIR,
            FileType::NamedPipe => AE_IFIFO,
            FileType::Mount => AE_IFMT,
            FileType::RegularFile => AE_IFREG,
            FileType::Socket => AE_IFSOCK,
            FileType::Unknown => 0,
        }
    }

    /// The file type that a numeric code stands for, if it stands for one:
    /// the file type that has this code.
    pub open spec fn spec_from_code(code: u32) -> Option<FileType> {
        if exists|file_type: FileType| #[trigger] file_type.spec_code() == code {
            Some(choose|file_type: FileType| #[trigger] file_type.spec_code() == code)
        } else {
            None
        }
    }

    /// Whether `code` is one of the nine codes the engine is limited to.
    pub open spec fn is_code(code: u32) -> bool {
        Self::spec_from_code(code) is Some
    }

    #[verifier::when_used_as_spec(spec_code)]
    pub fn code(self) -> (code: u32)
        ensures
            code == self.spec_code(),
    {
        match self {
            FileType::BlockDevice => AE_IFBLK,
            FileType::CharacterDevice => AE_IFCHR,
            FileType::SymbolicLink => AE_IFLNK,
            FileType::Directory => AE_IFDIR,
            FileType::NamedPipe => AE_IFIFO,
            FileType::Mount => AE_IFMT,
            FileType::RegularFile => AE_IFREG,
            FileType::Socket => AE_IFSOCK,
            FileType::Unknown => 0,
        }
    }

    /// Reads a numeric code. `None` exactly for a code outside the engine's
    /// set.
    pub fn from_code(code: u32) -> (file_type: Option<FileType>)
        ensures
            file_type == Self::spec_from_code(code),
    {
        let file_type = if code == AE_IFBLK {
            Some(FileType::BlockDevice)
        } else if code == AE_IFCHR {
            Some(FileType::CharacterDevice)
        } else if code == AE_IFLNK {
            Some(FileType::SymbolicLink)
        } else if code == AE_IFDIR {
            Some(FileType::Directory)
        } else if code == AE_IFIFO {
            Some(FileType::NamedPipe)
        } else if code == AE_IFMT {
            Some(FileType::Mount)
        } else if code == AE_IFREG {
            Some(FileType::RegularFile)
        } else if code == AE_IFSOCK {
            Some(FileType::Socket)
        } else if code == 0 {
            Some(FileType::Unknown)
        } else {
            None
        };
        proof {
            match file_type {
                Some(found) => Self::lemma_code_round_trip(found),
                None => {
                    assert forall|other: FileType| #[trigger] other.spec_code() != code by {
                        Self::lemma_codes(other);
                    }
                },
            }
        }
        file_type
    }

    /// Every file type has one of the nine codes.
    proof fn lemma_codes(file_type: FileType)
        ensures
            file_type.spec_code() == AE_IFBLK || file_type.spec_code() == AE_IFCHR
                || file_type.spec_code() == AE_IFLNK || file_type.spec_code() == AE_IFDIR
                || file_type.spec_code() == AE_IFIFO || file_type.spec_code() == AE_IFMT
                || file_type.spec_code() == AE_IFREG || file_type.spec_code() == AE_IFSOCK
                || file_type.spec_code() == 0,
    {
    }

    /// No two file types have the same code.
    pub proof fn lemma_code_tells_file_types_apart(a: FileType, b: FileType)
        requires
            a.spec_code() == b.spec_code(),
        ensures
            a == b,
    {
    }

    /// Writing a file type as its code and reading the code back gives the
    /// file type again.
    pub proof fn lemma_code_round_trip(file_type: FileType)
        ensures
            Self::spec_from_code(file_type.spec_code()) == Some(file_type),
    {
        let code = file_type.spec_code();
        let found = choose|other: FileType| #[trigger] other.spec_code() == code;
        Self::lemma_code_tells_file_types_apart(found, file_type);
    }

    /// A code that stands for a file type is the code of that file type.
    pub proof fn lemma_from_code_inverts(code: u32)
        requires
            Self::is_code(code),
        ensures
            Self::spec_from_code(code).unwrap().spec_code() == code,
    {
    }
}

/// A decompression that a reader can be asked to support.
#[derive(Debug, Clone, PartialEq, Eq)]
pub enum ReadCompression {
    All,
    Bzip2,
    Compress,
    Gzip,
    Lzip,
    Lzma,
    /// Data that is not compressed.
    Uncompressed,
    /// An external program that decompresses, by its command line.
    Program(String),
    Rpm,
    Uu,
    Xz,
}

/// A filter that a reader can be asked to support.
#[derive(Debug, Clone, PartialEq, Eq)]
pub enum ReadFilter {
    All,
    Bzip2,
    Compress,
    Grzip,
    Gzip,
    Lrzip,
    Lzip,
    Lzma,
    Lzop,
    /// Data that passes through as it is.
    Unfiltered,
    /// An external program that filters, by its command line.
    Program(String),
    /// An external program, used only for data that starts with the given
    /// signature bytes.
    ProgramSignature(String, Vec<u8>),
    Rpm,
    Uu,
    Xz,
}

/// An archive format that a reader can be asked to support.
#[derive(Debug, Clone, Copy, PartialEq, Eq, Structural)]
pub enum ReadFormat {
    SevenZip,
    All,
    Ar,
    Cab,
    Cpio,
    Empty,
    Gnutar,
    Iso9660,
    Lha,
    Mtree,
    Rar,
    Raw,
    Tar,
    Xar,
    Zip,
}

/// The engine's routines that register a capability on a read handle, one
/// for each selector. A routine named after an external program takes the
/// program's command line, and the one with a signature takes the signature
/// bytes as well; the others take nothing but the handle.
#[derive(Debug, Clone, Copy, PartialEq, Eq, Structural)]
pub enum Routine {
    CompressionAll,
    CompressionBzip2,
    CompressionCompress,
    CompressionGzip,
    CompressionLzip,
    CompressionLzma,
    CompressionNone,
    CompressionProgram,
    CompressionRpm,
    CompressionUu,
    CompressionXz,
    FilterAll,
    FilterBzip2,
    FilterCompress,
    FilterGrzip,
    FilterGzip,
    FilterLrzip,
    FilterLzip,
    FilterLzma,
    FilterLzop,
    FilterNone,
    FilterProgram,
    FilterProgramSignature,
    FilterRpm,
    FilterUu,
    FilterXz,
    FormatSevenZip,
    FormatAll,
    FormatAr,
    FormatCab,
    FormatCpio,
    FormatEmpty,
    FormatGnutar,
    FormatIso9660,
    FormatLha,
    FormatMtree,
    FormatRar,
    FormatRaw,
    FormatTar,
    FormatXar,
    FormatZip,
}

/// The bytes to hand to the engine for the command line `program`, or the
/// error for a command line that cannot be handed over.
pub open spec fn command_result(program: Option<Seq<char>>, result: ArchiveResult<Option<Vec<u8>>>) -> bool {
    match program {
        None => result == Ok::<Option<Vec<u8>>, ArchiveError>(None),
        Some(text) => if is_c_text(text) {
            result matches Ok(Some(bytes)) && bytes@ == encode_utf8(text)
        } else {
            result == Err::<Option<Vec<u8>>, ArchiveError>(ArchiveError::EncodingError)
        },
    }
}

fn command_of(program: &String) -> (result: ArchiveResult<Option<Vec<u8>>>)
    ensures
        command_result(Some(program@), result),
{
    match c_text(program.as_str()) {
        Ok(bytes) => Ok(Some(bytes)),
        Err(error) => Err(error),
    }
}

impl ReadCompression {
    /// The engine routine that registers the selector.
    pub open spec fn spec_routine(&self) -> Routine {
        match self {
            ReadCompression::All => Routine::CompressionAll,
            ReadCompression::Bzip2 => Routine::CompressionBzip2,
            ReadCompression::Compress => Routine::CompressionCompress,
            ReadCompression::Gzip => Routine::CompressionGzip,
            ReadCompression::Lzip => Routine::CompressionLzip,
            ReadCompression::Lzma => Routine::CompressionLzma,
            ReadCompression::Uncompressed => Routine::CompressionNone,
            ReadCompression::Program(_) => Routine::CompressionProgram,
            ReadCompression::Rpm => Routine::CompressionRpm,
            ReadCompression::Uu => Routine::CompressionUu,
            ReadCompression::Xz => Routine::CompressionXz,
        }
    }

    /// Picks the engine routine that registers the selector.
    #[verifier::when_used_as_spec(spec_routine)]
    pub fn routine(&self) -> (routine: Routine)
        ensures
            routine == self.spec_routine(),
    {
        match self {
            ReadCompression::All => Routine::CompressionAll,
            ReadCompression::Bzip2 => Routine::CompressionBzip2,
            ReadCompression::Compress => Routine::CompressionCompress,
            ReadCompression::Gzip => Routine::CompressionGzip,
            ReadCompression::Lzip => Routine::CompressionLzip,
            ReadCompression::Lzma => Routine::CompressionLzma,
            ReadCompression::Uncompressed => Routine::CompressionNone,
            ReadCompression::Program(_) => Routine::CompressionProgram,
            ReadCompression::Rpm => Routine::CompressionRpm,
            ReadCompression::Uu => Routine::CompressionUu,
            ReadCompression::Xz => Routine::CompressionXz,
        }
    }

    /// The command line of the external program that the selector names, if
    /// it names one.
    pub open spec fn program(&self) -> Option<Seq<char>> {
        match self {
            ReadCompression::Program(program) => Some(program@),
            _ => None,
        }
    }

    /// What goes to the engine beside the selector: for an external program
    /// its command line as bytes, for every other selector nothing. A command
    /// line with a zero byte in it is an `EncodingError`.
    pub fn command(&self) -> (result: ArchiveResult<Option<Vec<u8>>>)
        ensures
            command_result(self.program(), result),
    {
        match self {
            ReadCompression::Program(program) => command_of(program),
            _ => Ok(None),
        }
    }
}

impl ReadFilter {
    /// The engine routine that registers the selector.
    pub open spec fn spec_routine(&self) -> Routine {
        match self {
            ReadFilter::All => Routine::FilterAll,
            ReadFilter::Bzip2 => Routine::FilterBzip2,
            ReadFilter::Compress => Routine::FilterCompress,
            ReadFilter::Grzip => Routine::FilterGrzip,
            ReadFilter::Gzip => Routine::FilterGzip,
            ReadFilter::Lrzip => Routine::FilterLrzip,
            ReadFilter::Lzip => Routine::FilterLzip,
            ReadFilter::Lzma => Routine::FilterLzma,
            ReadFilter::Lzop => Routine::FilterLzop,
            ReadFilter::Unfiltered => Routine::FilterNone,
            ReadFilter::Program(_) => Routine::FilterProgram,
            ReadFilter::ProgramSignature(_, _) => Routine::FilterProgramSignature,
            ReadFilter::Rpm => Routine::FilterRpm,
            ReadFilter::Uu => Routine::FilterUu,
            ReadFilter::Xz => Routine::FilterXz,
        }
    }

    /// Picks the engine routine that registers the selector.
    #[verifier::when_used_as_spec(spec_routine)]
    pub fn routine(&self) -> (routine: Routine)
        ensures
            routine == self.spec_routine(),
    {
        match self {
            ReadFilter::All => Routine::FilterAll,
            ReadFilter::Bzip2 => Routine::FilterBzip2,
            ReadFilter::Compress => Routine::FilterCompress,
            ReadFilter::Grzip => Routine::FilterGrzip,
            ReadFilter::Gzip => Routine::FilterGzip,
            ReadFilter::Lrzip => Routine::FilterLrzip,
            ReadFilter::Lzip => Routine::FilterLzip,
            ReadFilter::Lzma => Routine::FilterLzma,
            ReadFilter::Lzop => Routine::FilterLzop,
            ReadFilter::Unfiltered => Routine::FilterNone,
            ReadFilter::Program(_) => Routine::FilterProgram,
            ReadFilter::ProgramSignature(_, _) => Routine::FilterProgramSignature,
            ReadFilter::Rpm => Routine::FilterRpm,
            ReadFilter::Uu => Routine::FilterUu,
            ReadFilter::Xz => Routine::FilterXz,
        }
    }

    /// The command line of the external program that the selector names, if
    /// it names one.
    pub open spec fn program(&self) -> Option<Seq<char>> {
        match self {
            ReadFilter::Program(program) => Some(program@),
            ReadFilter::ProgramSignature(program, _) => Some(program@),
            _ => None,
        }
    }

    /// The signature bytes that the selector names, if it names any.
    pub open spec fn spec_signature(&self) -> Option<Seq<u8>> {
        match self {
            ReadFilter::ProgramSignature(_, signature) => Some(signature@),
            _ => None,
        }
    }

    /// What goes to the engine beside the selector: for an external program
    /// its command line as bytes, for every other selector nothing. A command
    /// line with a zero byte in it is an `EncodingError`.
    pub fn command(&self) -> (result: ArchiveResult<Option<Vec<u8>>>)
        ensures
            command_result(self.program(), result),
    {
        match self {
            ReadFilter::Program(program) => command_of(program),
            ReadFilter::ProgramSignature(program, _) => command_of(program),
            _ => Ok(None),
        }
    }

    /// The signature that goes to the engine with the command line.
    pub fn signature(&self) -> (signature: Option<&[u8]>)
        ensures
            match signature {
                Some(bytes) => self.spec_signature() == Some(bytes@),
                None => self.spec_signature() is None,
            },
    {
        match self {
            ReadFilter::ProgramSignature(_, signature) => Some(signature.as_slice()),
            _ => None,
        }
    }
}

impl ReadFormat {
    /// The engine routine that registers the selector.
    pub open spec fn spec_routine(self) -> Routine {
        match self {
            ReadFormat::SevenZip => Routine::FormatSevenZip,
            ReadFormat::All => Routine::FormatAll,
            ReadFormat::Ar => Routine::FormatAr,
            ReadFormat::Cab => Routine::FormatCab,
            ReadFormat::Cpio => Routine::FormatCpio,
            ReadFormat::Empty => Routine::FormatEmpty,
            ReadFormat::Gnutar => Routine::FormatGnutar,
            ReadFormat::Iso9660 => Routine::FormatIso9660,
            ReadFormat::Lha => Routine::FormatLha,
            ReadFormat::Mtree => Routine::FormatMtree,
            ReadFormat::Rar => Routine::FormatRar,
            ReadFormat::Raw => Routine::FormatRaw,
            ReadFormat::Tar => Routine::FormatTar,
            ReadFormat::Xar => Routine::FormatXar,
            ReadFormat::Zip => Routine::FormatZip,
        }
    }

    /// Picks the engine routine that registers the selector.
    #[verifier::when_used_as_spec(spec_routine)]
    pub fn routine(self) -> (routine: Routine)
        ensures
            routine == self.spec_routine(),
    {
        match self {
            ReadFormat::SevenZip => Routine::FormatSevenZip,
            ReadFormat::All => Routine::FormatAll,
            ReadFormat::Ar => Routine::FormatAr,
            ReadFormat::Cab => Routine::FormatCab,
            ReadFormat::Cpio => Routine::FormatCpio,
            ReadFormat::Empty => Routine::FormatEmpty,
            ReadFormat::Gnutar => Routine::FormatGnutar,
            ReadFormat::Iso9660 => Routine::FormatIso9660,
            ReadFormat::Lha => Routine::FormatLha,
            ReadFormat::Mtree => Routine::FormatMtree,
            ReadFormat::Rar => Routine::FormatRar,
            ReadFormat::Raw => Routine::FormatRaw,
            ReadFormat::Tar => Routine::FormatTar,
            ReadFormat::Xar => Routine::FormatXar,
            ReadFormat::Zip => Routine::FormatZip,
        }
    }

    /// No two formats are registered by the same routine.
    pub proof fn lemma_routine_tells_formats_apart(a: ReadFormat, b: ReadFormat)
        requires
            a.spec_routine() == b.spec_routine(),
        ensures
            a == b,
    {
    }
}

/// One thing that a reader has been made able to do before it is opened.
#[derive(Debug, Clone, PartialEq, Eq)]
pub enum Capability {
    Compression(ReadCompression),
    Filter(ReadFilter),
    Format(ReadFormat),
    /// The engine may ask the byte source to seek.
    SeekCallback,
}

/// What a handle is for. The mode decides how the handle is torn down.
#[derive(Debug, Clone, Copy, PartialEq, Eq, Structural)]
pub enum HandleMode {
    Read,
    Write,
}

/// The engine calls that end a handle's life.
#[derive(Debug, Clone, Copy, PartialEq, Eq, Structural)]
pub enum HandleCall {
    ReadClose,
    ReadFree,
    WriteClose,
    WriteFree,
}

/// How to tear a handle down: close it, then free it, whatever the close
/// reports. A free without a close can leak what the engine holds open; a
/// close without a free leaks the engine's own memory.
#[derive(Debug, Clone, Copy, PartialEq, Eq, Structural)]
pub struct Teardown {
    pub raw: usize,
    pub close: HandleCall,
    pub free: HandleCall,
}

/// The teardown of the handle `raw` of the given mode.
pub open spec fn teardown_of(raw: usize, mode: HandleMode) -> Teardown {
    match mode {
        HandleMode::Read => Teardown {
            raw,
            close: HandleCall::ReadClose,
            free: HandleCall::ReadFree,
        },
        HandleMode::Write => Teardown {
            raw,
            close: HandleCall::WriteClose,
            free: HandleCall::WriteFree,
        },
    }
}

/// The one owner of an engine instance. The instance is known by the address
/// that the engine gave out, which is never null. A handle is not copied; it
/// is used up by its teardown.
#[derive(Debug)]
pub struct ArchiveHandle {
    raw: usize,
    mode: HandleMode,
}

impl ArchiveHandle {
    #[verifier::type_invariant]
    spec fn live(self) -> bool {
        self.raw != 0
    }

    pub closed spec fn spec_mode(&self) -> HandleMode {
        self.mode
    }

    /// Takes charge of what the engine allocated. A null address means that
    /// the allocation failed, and gives no handle.
    pub fn from_raw(raw: usize, mode: HandleMode) -> (handle: Option<Self>)
        ensures
            handle is None <==> raw == 0,
            handle matches Some(h) ==> h.spec_handle() == raw && h.spec_mode() == mode,
    {
        if raw == 0 {
            None
        } else {
            Some(ArchiveHandle { raw, mode })
        }
    }

    #[verifier::when_used_as_spec(spec_mode)]
    pub fn mode(&self) -> (mode: HandleMode)
        ensures
            mode == self.spec_mode(),
    {
        self.mode
    }

    /// Ends the handle's life: tells which two calls to make on which
    /// address, in their order. Both are made once; the handle is gone, so
    /// neither can be made again through it.
    pub fn teardown(self) -> (plan: Teardown)
        ensures
            plan == teardown_of(self.spec_handle(), self.spec_mode()),
            plan.raw != 0,
    {
        proof {
            use_type_invariant(&self);
        }
        match self.mode {
            HandleMode::Read => Teardown {
                raw: self.raw,
                close: HandleCall::ReadClose,
                free: HandleCall::ReadFree,
            },
            HandleMode::Write => Teardown {
                raw: self.raw,
                close: HandleCall::WriteClose,
                free: HandleCall::WriteFree,
            },
        }
    }
}

/// What a step that uses a builder up leaves when the engine refuses it: the
/// error, and the handle, which nothing holds any longer and which is to be
/// torn down.
#[derive(Debug)]
pub struct Abandoned {
    pub error: ArchiveError,
    pub handle: ArchiveHandle,
}

/// What holds a handle: the handle itself, a builder, a reader, a writer.
pub trait Handle {
    /// The address of the engine instance that `self` holds.
    spec fn spec_handle(&self) -> usize;

    /// The address of the engine instance, for the calls made on it. It is
    /// to be used while `self` lives and not kept.
    fn handle(&self) -> (raw: usize)
        ensures
            raw == self.spec_handle(),
            raw != 0,
    ;
}

impl Handle for ArchiveHandle {
    closed spec fn spec_handle(&self) -> usize {
        self.raw
    }

    fn handle(&self) -> (raw: usize) {
        proof {
            use_type_invariant(self);
        }
        self.raw
    }
}

} // verus!
