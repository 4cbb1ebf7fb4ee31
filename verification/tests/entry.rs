use libarchive::archive::{FileType, AE_IFDIR, AE_IFLNK, AE_IFREG};
use libarchive::entry::{BorrowedEntry, Entry, EntryRecord, OwnedEntry};

fn record(filetype: u32, pathname: &[u8], size: i64) -> EntryRecord {
    EntryRecord {
        filetype,
        pathname: Some(pathname.to_vec()),
        size,
        symlink: None,
        hardlink: None,
    }
}

#[test]
fn default_borrowed_entry_is_null_and_unknown() {
    let entry = BorrowedEntry::default();
    assert!(entry.is_null());
    assert!(entry.entry().is_none());
    assert_eq!(entry.filetype(), FileType::Unknown);
}

#[test]
fn default_borrowed_entry_reads_empty_everywhere() {
    let entry = BorrowedEntry::default();
    assert_eq!(entry.pathname_raw(), b"");
    assert_eq!(entry.pathname(), "");
    assert_eq!(entry.size(), 0);
    assert_eq!(entry.symlink_raw(), None);
    assert_eq!(entry.symlink(), None);
    assert_eq!(entry.hardlink_raw(), None);
    assert_eq!(entry.hardlink(), None);
}

#[test]
fn empty_record_is_the_default_record() {
    let empty = EntryRecord::empty();
    assert_eq!(empty, EntryRecord::default());
    assert_eq!(empty.filetype, 0);
    assert_eq!(empty.pathname, None);
    assert_eq!(empty.size, 0);
    assert_eq!(empty.symlink, None);
    assert_eq!(empty.hardlink, None);
}

#[test]
fn borrowed_entry_shows_its_record() {
    let entry = BorrowedEntry::new(record(AE_IFREG, b"a.txt", 5));
    assert!(!entry.is_null());
    assert_eq!(entry.entry(), Some(&record(AE_IFREG, b"a.txt", 5)));
    assert_eq!(entry.filetype(), FileType::RegularFile);
    assert_eq!(entry.pathname_raw(), b"a.txt");
    assert_eq!(entry.pathname(), "a.txt");
    assert_eq!(entry.size(), 5);
    assert_eq!(entry.symlink(), None);
    assert_eq!(entry.hardlink(), None);
}

#[test]
fn a_record_without_a_path_reads_an_empty_path() {
    let entry = BorrowedEntry::new(EntryRecord { filetype: AE_IFDIR, ..EntryRecord::empty() });
    assert_eq!(entry.filetype(), FileType::Directory);
    assert_eq!(entry.pathname_raw(), b"");
    assert_eq!(entry.pathname(), "");
}

#[test]
fn symlink_and_hardlink_are_told_apart() {
    let symlink = BorrowedEntry::new(EntryRecord {
        symlink: Some(b"a.txt".to_vec()),
        ..record(AE_IFLNK, b"b", 0)
    });
    assert_eq!(symlink.filetype(), FileType::SymbolicLink);
    assert_eq!(symlink.symlink_raw(), Some(&b"a.txt"[..]));
    assert_eq!(symlink.symlink(), Some("a.txt"));
    assert_eq!(symlink.hardlink_raw(), None);
    assert_eq!(symlink.hardlink(), None);

    let hardlink = BorrowedEntry::new(EntryRecord {
        hardlink: Some(b"orig".to_vec()),
        ..record(AE_IFREG, b"copy", 0)
    });
    assert_eq!(hardlink.hardlink_raw(), Some(&b"orig"[..]));
    assert_eq!(hardlink.hardlink(), Some("orig"));
    assert_eq!(hardlink.symlink_raw(), None);
    assert_eq!(hardlink.symlink(), None);
}

#[test]
fn raw_paths_need_not_be_text() {
    let entry = BorrowedEntry::new(EntryRecord {
        symlink: Some(vec![0xfe, 0xff]),
        ..record(AE_IFLNK, &[0x66, 0xff, 0x6f], 0)
    });
    assert_eq!(entry.pathname_raw(), &[0x66, 0xff, 0x6f]);
    assert_eq!(entry.symlink_raw(), Some(&[0xfeu8, 0xff][..]));
}

#[test]
fn size_is_the_engines_signed_count() {
    assert_eq!(BorrowedEntry::new(record(AE_IFREG, b"big", i64::MAX)).size(), i64::MAX);
    assert_eq!(BorrowedEntry::new(record(AE_IFREG, b"odd", -1)).size(), -1);
}

#[test]
fn owned_entry_needs_an_allocation() {
    assert!(OwnedEntry::new(0).is_none());
    let entry = OwnedEntry::new(0x4000).unwrap();
    assert_eq!(entry.raw(), 0x4000);
}

#[test]
fn fresh_owned_entry_is_empty() {
    let entry = OwnedEntry::new(0x4000).unwrap();
    assert_eq!(entry.entry(), Some(&EntryRecord::empty()));
    assert_eq!(entry.filetype(), FileType::Unknown);
    assert_eq!(entry.pathname_raw(), b"");
    assert_eq!(entry.size(), 0);
    assert_eq!(entry.symlink(), None);
    assert_eq!(entry.hardlink(), None);
}

#[test]
fn set_filetype_is_read_back() {
    let mut entry = OwnedEntry::new(0x4000).unwrap();
    for file_type in [
        FileType::BlockDevice,
        FileType::CharacterDevice,
        FileType::SymbolicLink,
        FileType::Directory,
        FileType::NamedPipe,
        FileType::Mount,
        FileType::RegularFile,
        FileType::Socket,
        FileType::Unknown,
    ] {
        entry.set_filetype(file_type);
        assert_eq!(entry.filetype(), file_type);
        assert_eq!(entry.entry().unwrap().filetype, file_type.code());
    }
    assert_eq!(entry.raw(), 0x4000);
}

#[test]
fn set_pathname_is_read_back() {
    let mut entry = OwnedEntry::new(0x4000).unwrap();
    entry.set_pathname("dir/a.txt");
    assert_eq!(entry.pathname(), "dir/a.txt");
    assert_eq!(entry.pathname_raw(), b"dir/a.txt");
    entry.set_pathname("\u{e9}");
    assert_eq!(entry.pathname_raw(), &[0xc3, 0xa9]);
    assert_eq!(entry.filetype(), FileType::Unknown);
    assert_eq!(entry.size(), 0);
}

#[test]
fn set_link_makes_a_hardlink_of_an_entry_without_symlink() {
    let mut entry = OwnedEntry::new(0x4000).unwrap();
    entry.set_link("target");
    assert_eq!(entry.hardlink(), Some("target"));
    assert_eq!(entry.symlink(), None);
    entry.set_link("other");
    assert_eq!(entry.hardlink(), Some("other"));
    assert_eq!(entry.symlink(), None);
}

#[test]
fn set_link_updates_the_symlink_of_an_entry_that_has_one() {
    let mut entry = BorrowedEntry::new(EntryRecord {
        symlink: Some(b"old".to_vec()),
        ..record(AE_IFLNK, b"b", 0)
    });
    entry.set_link("new");
    assert_eq!(entry.symlink(), Some("new"));
    assert_eq!(entry.hardlink(), None);
    assert_eq!(entry.pathname(), "b");
}

#[test]
fn setters_write_to_a_borrowed_record() {
    let mut entry = BorrowedEntry::new(record(AE_IFREG, b"a", 1));
    entry.set_filetype(FileType::Directory);
    entry.set_pathname("d");
    assert_eq!(entry.filetype(), FileType::Directory);
    assert_eq!(entry.pathname(), "d");
    assert_eq!(entry.size(), 1);
}
