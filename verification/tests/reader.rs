use libarchive::archive::{
    FileType, Handle, AE_IFLNK, AE_IFREG, ARCHIVE_EOF, ARCHIVE_FAILED, ARCHIVE_FATAL, ARCHIVE_OK,
    ARCHIVE_WARN,
};
use libarchive::entry::{BorrowedEntry, Entry, EntryRecord};
use libarchive::error::{ArchiveError, ErrorSlot};
use libarchive::reader::reader::{ReadAll, ReadAllStep, READ_INCREMENT};
use libarchive::reader::{Builder, FileReader, Reader};

fn slot(code: i32, message: &str) -> ErrorSlot {
    ErrorSlot { code, message: message.to_string() }
}

fn quiet() -> ErrorSlot {
    slot(0, "")
}

fn reader() -> FileReader {
    Builder::new(0x1000).unwrap().open_file(ARCHIVE_OK, quiet()).unwrap()
}

fn member(filetype: u32, pathname: &str, size: i64) -> EntryRecord {
    EntryRecord {
        filetype,
        pathname: Some(pathname.as_bytes().to_vec()),
        size,
        symlink: None,
        hardlink: None,
    }
}

/// Feeds `payload` to a whole-member read in reads of at most `cut` bytes,
/// each into a buffer of the length the accumulator asked for.
fn read_all_in(payload: &[u8], cut: usize) -> (Vec<u8>, usize) {
    let mut state = reader().read_all();
    let mut at = 0;
    let mut reads = 0;
    loop {
        let window = state.window();
        assert!(1 <= window && window <= READ_INCREMENT);
        let n = window.min(cut).min(payload.len() - at);
        let mut buffer = vec![0xaau8; window];
        buffer[..n].copy_from_slice(&payload[at..at + n]);
        at += n;
        reads += 1;
        match state.step(&buffer, n as isize, quiet()) {
            ReadAllStep::More(next) => state = next,
            ReadAllStep::Done(all) => return (all, reads),
            ReadAllStep::Failed(error) => panic!("{:?}", error),
        }
    }
}

fn payload(n: usize) -> Vec<u8> {
    (0..n).map(|i| (i * 31 % 251) as u8).collect()
}

#[test]
fn next_header_lends_the_entry_on_ok() {
    let mut reader = reader();
    let header = reader.next_header(ARCHIVE_OK, BorrowedEntry::new(member(AE_IFREG, "a.txt", 5)));
    assert_eq!(header, Some(&BorrowedEntry::new(member(AE_IFREG, "a.txt", 5))));
    assert_eq!(reader.entry().pathname(), "a.txt");
    assert_eq!(reader.handle(), 0x1000);
}

#[test]
fn next_header_gives_none_at_the_end() {
    let mut reader = reader();
    assert_eq!(reader.next_header(ARCHIVE_EOF, BorrowedEntry::default()), None);
}

#[test]
fn next_header_gives_none_for_every_status_but_ok() {
    for status in [ARCHIVE_EOF, ARCHIVE_WARN, ARCHIVE_FAILED, ARCHIVE_FATAL, -10, 7] {
        let mut reader = reader();
        let entry = BorrowedEntry::new(member(AE_IFREG, "x", 1));
        assert_eq!(reader.next_header(status, entry), None);
    }
}

#[test]
fn next_header_replaces_the_view_that_was_current() {
    let mut reader = reader();
    reader.next_header(ARCHIVE_OK, BorrowedEntry::new(member(AE_IFREG, "first", 1)));
    reader.next_header(ARCHIVE_OK, BorrowedEntry::new(member(AE_IFREG, "second", 2)));
    assert_eq!(reader.entry().pathname(), "second");
    assert_eq!(reader.entry().size(), 2);
    reader.next_header(ARCHIVE_EOF, BorrowedEntry::default());
    assert!(reader.entry().is_null());
}

#[test]
fn headers_come_once_each_in_order() {
    let names = ["one", "two", "three", "four"];
    let mut reader = reader();
    let mut seen = Vec::new();
    let mut replies: Vec<(i32, BorrowedEntry)> = names
        .iter()
        .map(|name| (ARCHIVE_OK, BorrowedEntry::new(member(AE_IFREG, name, 0))))
        .collect();
    replies.push((ARCHIVE_EOF, BorrowedEntry::default()));
    for (status, entry) in replies {
        match reader.next_header(status, entry) {
            Some(entry) => seen.push(entry.pathname().to_string()),
            None => break,
        }
    }
    assert_eq!(seen, names);
}

#[test]
fn read_returns_the_count() {
    let mut reader = reader();
    assert_eq!(reader.read(5, quiet()), Ok(5));
    assert_eq!(reader.read(0, quiet()), Ok(0));
    assert_eq!(reader.read(isize::MAX, quiet()), Ok(isize::MAX as usize));
    assert_eq!(reader.read(1, slot(5, "stale")), Ok(1));
}

#[test]
fn read_turns_a_negative_count_into_a_system_error() {
    let mut reader = reader();
    for count in [-1isize, -20, -25, -30, isize::MIN] {
        assert_eq!(
            reader.read(count, slot(-1, "Truncated tar archive")),
            Err(ArchiveError::SystemError(-1, "Truncated tar archive".to_string()))
        );
    }
}

#[test]
fn read_block_hands_the_block_on() {
    let reader = reader();
    assert_eq!(
        reader.read_block(ARCHIVE_OK, b"hello", 0, quiet()),
        Ok(Some((&b"hello"[..], 0)))
    );
    assert_eq!(
        reader.read_block(ARCHIVE_OK, b"tail", 1 << 40, quiet()),
        Ok(Some((&b"tail"[..], 1 << 40)))
    );
    assert_eq!(reader.read_block(ARCHIVE_OK, b"", 9, quiet()), Ok(Some((&b""[..], 9))));
}

#[test]
fn read_block_ends_at_eof() {
    let reader = reader();
    assert_eq!(reader.read_block(ARCHIVE_EOF, b"", 5, quiet()), Ok(None));
    assert_eq!(reader.read_block(ARCHIVE_EOF, b"ignored", 5, slot(1, "stale")), Ok(None));
}

#[test]
fn read_block_fails_with_the_engines_error() {
    let reader = reader();
    for status in [ARCHIVE_WARN, ARCHIVE_FAILED, ARCHIVE_FATAL, -10, 2] {
        assert_eq!(
            reader.read_block(status, b"junk", 0, slot(79, "Damaged block")),
            Err(ArchiveError::SystemError(79, "Damaged block".to_string()))
        );
    }
}

#[test]
fn blocks_of_a_sparse_member_keep_their_offsets() {
    let reader = reader();
    let engine: [(&[u8], i64); 3] = [(b"head", 0), (b"mid", 4096), (b"tail", 1 << 20)];
    let mut offsets = Vec::new();
    let mut data = Vec::new();
    for (block, offset) in engine {
        let (bytes, at) = reader.read_block(ARCHIVE_OK, block, offset, quiet()).unwrap().unwrap();
        offsets.push(at);
        data.extend_from_slice(bytes);
    }
    assert_eq!(reader.read_block(ARCHIVE_EOF, b"", 0, quiet()), Ok(None));
    assert_eq!(offsets, vec![0, 4096, 1 << 20]);
    assert!(offsets.windows(2).all(|pair| pair[0] <= pair[1]));
    assert_eq!(data, b"headmidtail");
}

#[test]
fn blocks_of_a_dense_member_rebuild_what_read_all_gives() {
    let bytes = payload(3 * READ_INCREMENT + 17);
    let reader = reader();
    let mut rebuilt = Vec::new();
    let mut offset = 0i64;
    for block in bytes.chunks(10240) {
        let (got, at) = reader.read_block(ARCHIVE_OK, block, offset, quiet()).unwrap().unwrap();
        assert_eq!(at, rebuilt.len() as i64);
        rebuilt.extend_from_slice(got);
        offset += block.len() as i64;
    }
    assert_eq!(rebuilt, read_all_in(&bytes, usize::MAX).0);
}

#[test]
fn window_fills_up_to_the_next_increment() {
    assert_eq!(READ_INCREMENT, 65536);
    let state = ReadAll::new();
    assert_eq!(state.window(), 65536);
    let state = match state.step(&[7u8; 10], 10, quiet()) {
        ReadAllStep::More(state) => state,
        _ => panic!("ten bytes end nothing"),
    };
    assert_eq!(state.window(), 65526);
    let state = match state.step(&vec![1u8; 65526], 65526, quiet()) {
        ReadAllStep::More(state) => state,
        _ => panic!("a full window ends nothing"),
    };
    assert_eq!(state.window(), 65536);
}

#[test]
fn read_all_of_an_empty_member_is_empty() {
    assert_eq!(read_all_in(&[], usize::MAX), (Vec::new(), 1));
}

#[test]
fn read_all_of_one_byte() {
    assert_eq!(read_all_in(&[0x42], usize::MAX), (vec![0x42], 2));
}

#[test]
fn read_all_of_exactly_one_increment() {
    let bytes = payload(READ_INCREMENT);
    assert_eq!(read_all_in(&bytes, usize::MAX), (bytes, 2));
}

#[test]
fn read_all_of_one_increment_and_one_byte() {
    let bytes = payload(READ_INCREMENT + 1);
    assert_eq!(read_all_in(&bytes, usize::MAX), (bytes, 3));
}

#[test]
fn read_all_of_several_increments() {
    let bytes = payload(5 * READ_INCREMENT + 123);
    assert_eq!(read_all_in(&bytes, usize::MAX), (bytes, 7));
}

#[test]
fn read_all_does_not_depend_on_how_the_engine_cuts_the_data() {
    let bytes = payload(2 * READ_INCREMENT + 5);
    for cut in [1usize << 16, 10240, 8192, 4097, 1000] {
        assert_eq!(read_all_in(&bytes, cut).0, bytes);
    }
    let small = payload(300);
    assert_eq!(read_all_in(&small, 1), (small.clone(), 301));
}

#[test]
fn read_all_takes_only_the_bytes_that_were_read() {
    let state = ReadAll::new();
    match state.step(b"helloXXXXXXXX", 5, quiet()) {
        ReadAllStep::More(state) => match state.step(b"unused", 0, quiet()) {
            ReadAllStep::Done(all) => assert_eq!(all, b"hello"),
            _ => panic!("a zero count ends the member"),
        },
        _ => panic!("five bytes end nothing"),
    }
}

#[test]
fn read_all_returns_the_first_error() {
    let state = ReadAll::new();
    let state = match state.step(b"part", 4, quiet()) {
        ReadAllStep::More(state) => state,
        _ => panic!("four bytes end nothing"),
    };
    match state.step(b"junk", -30, slot(-1, "Truncated input file")) {
        ReadAllStep::Failed(error) => {
            assert_eq!(error, ArchiveError::SystemError(-1, "Truncated input file".to_string()))
        }
        _ => panic!("a negative count fails the read"),
    }
}

#[test]
fn a_tar_with_a_file_and_a_symlink() {
    let mut reader = reader();
    let a = BorrowedEntry::new(member(AE_IFREG, "a.txt", 5));
    let b = BorrowedEntry::new(EntryRecord {
        symlink: Some(b"a.txt".to_vec()),
        ..member(AE_IFLNK, "b", 0)
    });
    let mut headers = 0;

    {
        let entry = reader.next_header(ARCHIVE_OK, a).expect("first header");
        headers += 1;
        assert_eq!(entry.pathname(), "a.txt");
        assert_eq!(entry.filetype(), FileType::RegularFile);
        assert_eq!(entry.size(), 5);
    }
    let state = reader.read_all();
    let mut buffer = vec![0u8; state.window()];
    buffer[..5].copy_from_slice(b"hello");
    let state = match state.step(&buffer, 5, quiet()) {
        ReadAllStep::More(state) => state,
        _ => panic!("five bytes end nothing"),
    };
    match state.step(&buffer, 0, quiet()) {
        ReadAllStep::Done(all) => assert_eq!(all, b"hello"),
        _ => panic!("a zero count ends the member"),
    }

    {
        let entry = reader.next_header(ARCHIVE_OK, b).expect("second header");
        headers += 1;
        assert_eq!(entry.pathname(), "b");
        assert_eq!(entry.filetype(), FileType::SymbolicLink);
        assert_eq!(entry.symlink(), Some("a.txt"));
    }

    assert_eq!(reader.next_header(ARCHIVE_EOF, BorrowedEntry::default()), None);
    assert_eq!(headers, 2);
}
