//! The entry that a reader lends out.

use vstd::prelude::*;

use vstd::utf8::valid_utf8;

use crate::archive::FileType;
use super::entry::{bytes_or_empty, is_text_field, seen, Entry, EntryRecord, EntryView};

verus! {

/// A view of the record that a reader's cursor is on. The record belongs to
/// the reader: the view holds good from one header to the next and is not
/// what frees it. Before the first header the view refers to no record.
#[derive(Debug, Clone, PartialEq, Eq)]
pub struct BorrowedEntry {
    record: Option<EntryRecord>,
}

impl BorrowedEntry {
    /// A view of `record`.
    pub fn new(record: EntryRecord) -> (entry: Self)
        ensures
            entry.record() == Some(record@),
    {
        BorrowedEntry { record: Some(record) }
    }

    /// Whether the view refers to no record.
    pub fn is_null(&self) -> (null: bool)
        ensures
            null == (self.record() is None),
    {
        self.record.is_none()
    }
}

impl Default for BorrowedEntry {
    /// The view before the first header: it refers to no record.
    fn default() -> (entry: Self)
        ensures
            entry.record() is None,
    {
        BorrowedEntry { record: None }
    }
}

impl Entry for BorrowedEntry {
    closed spec fn record(&self) -> Option<EntryView> {
        match self.record {
            Some(record) => Some(record@),
            None => None,
        }
    }

    fn entry(&self) -> (record: Option<&EntryRecord>) {
        match &self.record {
            Some(record) => Some(record),
            None => None,
        }
    }

    fn entry_mut(&mut self) -> (record: &mut EntryRecord) {
        match &mut self.record {
            Some(record) => record,
            None => vstd::pervasive::unreached(),
        }
    }
}

/// A view that refers to no record, as every view does before the first
/// header, can be read all the same: its file type is `Unknown`, its path is
/// empty, its size is 0 and it is no link. None of the readers asks anything
/// of such a view.
pub proof fn lemma_null_entry_reads_empty(entry: BorrowedEntry)
    requires
        entry.record() is None,
    ensures
        FileType::is_code(seen(entry.record()).filetype),
        FileType::spec_from_code(seen(entry.record()).filetype) == Some(FileType::Unknown),
        bytes_or_empty(seen(entry.record()).pathname) == Seq::<u8>::empty(),
        valid_utf8(bytes_or_empty(seen(entry.record()).pathname)),
        seen(entry.record()).size == 0,
        seen(entry.record()).symlink is None,
        seen(entry.record()).hardlink is None,
        is_text_field(seen(entry.record()).symlink),
        is_text_field(seen(entry.record()).hardlink),
{
    FileType::lemma_code_round_trip(FileType::Unknown);
    assert(valid_utf8(Seq::<u8>::empty()));
}

} // verus!
