//! What an entry holds, and the operations that every kind of entry has.

use vstd::prelude::*;
use vstd::utf8::{decode_utf8, encode_utf8, valid_utf8};

use crate::archive::FileType;
use crate::text::{c_text, is_c_text, text};

verus! {

/// The fields of an entry as the engine holds them: the file type as its
/// numeric code, the paths as bytes, and for each path whether it is set at
/// all.
#[derive(Debug, Clone, PartialEq, Eq)]
pub struct EntryRecord {
    pub filetype: u32,
    pub pathname: Option<Vec<u8>>,
    pub size: i64,
    pub symlink: Option<Vec<u8>>,
    pub hardlink: Option<Vec<u8>>,
}

/// The fields of an entry as values.
pub struct EntryView {
    pub filetype: u32,
    pub pathname: Option<Seq<u8>>,
    pub size: i64,
    pub symlink: Option<Seq<u8>>,
    pub hardlink: Option<Seq<u8>>,
}

/// What a field that may be unset holds.
pub open spec fn field_view(field: Option<Vec<u8>>) -> Option<Seq<u8>> {
    match field {
        Some(bytes) => Some(bytes@),
        None => None,
    }
}

/// What a borrowed field that may be unset holds.
pub open spec fn slice_view(field: Option<&[u8]>) -> Option<Seq<u8>> {
    match field {
        Some(bytes) => Some(bytes@),
        None => None,
    }
}

/// What a text that may be absent says.
pub open spec fn text_view(field: Option<&str>) -> Option<Seq<char>> {
    match field {
        Some(s) => Some(s@),
        None => None,
    }
}

/// The bytes of a field, and no bytes for a field that is unset.
pub open spec fn bytes_or_empty(field: Option<Seq<u8>>) -> Seq<u8> {
    match field {
        Some(bytes) => bytes,
        None => Seq::empty(),
    }
}

/// Whether a field can be read as text: an unset field can, a set one if its
/// bytes are UTF-8.
pub open spec fn is_text_field(field: Option<Seq<u8>>) -> bool {
    field matches Some(bytes) ==> valid_utf8(bytes)
}

/// A field read as text.
pub open spec fn field_text(field: Option<Seq<u8>>) -> Option<Seq<char>> {
    match field {
        Some(bytes) => Some(decode_utf8(bytes)),
        None => None,
    }
}

impl View for EntryRecord {
    type V = EntryView;

    open spec fn view(&self) -> EntryView {
        EntryView {
            filetype: self.filetype,
            pathname: field_view(self.pathname),
            size: self.size,
            symlink: field_view(self.symlink),
            hardlink: field_view(self.hardlink),
        }
    }
}

impl EntryView {
    /// The fields of an entry that nothing was written to: no type, no
    /// paths, size 0.
    pub open spec fn empty() -> EntryView {
        EntryView { filetype: 0, pathname: None, size: 0, symlink: None, hardlink: None }
    }

    /// The fields after a link target is written: the target replaces the
    /// symbolic link's if the entry has one, and becomes the hard link's
    /// otherwise.
    pub open spec fn with_link(self, target: Seq<u8>) -> EntryView {
        if self.symlink is Some {
            EntryView { symlink: Some(target), ..self }
        } else {
            EntryView { hardlink: Some(target), ..self }
        }
    }
}

impl EntryRecord {
    /// The record of an entry that nothing was written to.
    pub fn empty() -> (record: EntryRecord)
        ensures
            record@ == EntryView::empty(),
    {
        EntryRecord { filetype: 0, pathname: None, size: 0, symlink: None, hardlink: None }
    }
}

impl Default for EntryRecord {
    fn default() -> (record: EntryRecord)
        ensures
            record@ == EntryView::empty(),
    {
        EntryRecord::empty()
    }
}

/// What is seen through an entry: the fields of its record, and those of an
/// empty record where the entry refers to none.
pub open spec fn seen(record: Option<EntryView>) -> EntryView {
    match record {
        Some(fields) => fields,
        None => EntryView::empty(),
    }
}

fn as_bytes(field: &Option<Vec<u8>>) -> (bytes: Option<&[u8]>)
    ensures
        slice_view(bytes) == field_view(*field),
{
    match field {
        Some(bytes) => Some(bytes.as_slice()),
        None => None,
    }
}

fn as_text<'a>(field: Option<&'a [u8]>) -> (result: Option<&'a str>)
    requires
        is_text_field(slice_view(field)),
    ensures
        text_view(result) == field_text(slice_view(field)),
{
    match field {
        Some(bytes) => match text(bytes) {
            Ok(s) => Some(s),
            Err(_) => None,
        },
        None => None,
    }
}

fn c_bytes(path: &str) -> (bytes: Vec<u8>)
    requires
        is_c_text(path@),
    ensures
        bytes@ == encode_utf8(path@),
{
    match c_text(path) {
        Ok(bytes) => bytes,
        Err(_) => Vec::new(),
    }
}

/// An entry: the metadata of one archive member. An entry either refers to a
/// record or, like a borrowed entry before the first header, to none. Reading
/// an entry that refers to no record is safe and reads an empty record;
/// writing to one is ruled out.
pub trait Entry {
    /// The fields of the record that the entry refers to.
    spec fn record(&self) -> Option<EntryView>;

    /// The record that the entry refers to.
    fn entry(&self) -> (record: Option<&EntryRecord>)
        ensures
            match record {
                Some(fields) => self.record() == Some(fields@),
                None => self.record() is None,
            },
    ;

    /// The record that the entry refers to, to write to.
    fn entry_mut(&mut self) -> (record: &mut EntryRecord)
        requires
            old(self).record() is Some,
        ensures
            Some(record@) == old(self).record(),
            final(self).record() == Some(final(record)@),
    ;

    /// The file type. The engine is limited to the nine known codes; for
    /// any other the file type is not defined.
    fn filetype(&self) -> (file_type: FileType)
        requires
            FileType::is_code(seen(self.record()).filetype),
        ensures
            Some(file_type) == FileType::spec_from_code(seen(self.record()).filetype),
    {
        let code = match self.entry() {
            Some(record) => record.filetype,
            None => 0,
        };
        match FileType::from_code(code) {
            Some(file_type) => file_type,
            None => FileType::Unknown,
        }
    }

    /// The target of the hard link as bytes, or `None` if the member is no
    /// hard link.
    fn hardlink_raw(&self) -> (target: Option<&[u8]>)
        ensures
            slice_view(target) == seen(self.record()).hardlink,
    {
        match self.entry() {
            Some(record) => as_bytes(&record.hardlink),
            None => None,
        }
    }

    /// The target of the hard link as text. The bytes have to be UTF-8.
    fn hardlink(&self) -> (target: Option<&str>)
        requires
            is_text_field(seen(self.record()).hardlink),
        ensures
            text_view(target) == field_text(seen(self.record()).hardlink),
    {
        as_text(self.hardlink_raw())
    }

    /// The member's path as bytes; no bytes if no path is set.
    fn pathname_raw(&self) -> (path: &[u8])
        ensures
            path@ == bytes_or_empty(seen(self.record()).pathname),
    {
        let field = match self.entry() {
            Some(record) => as_bytes(&record.pathname),
            None => None,
        };
        match field {
            Some(bytes) => bytes,
            None => {
                let none: &[u8] = &[];
                none
            },
        }
    }

    /// The member's path as text. The bytes have to be UTF-8.
    fn pathname(&self) -> (path: &str)
        requires
            valid_utf8(bytes_or_empty(seen(self.record()).pathname)),
        ensures
            path@ == decode_utf8(bytes_or_empty(seen(self.record()).pathname)),
    {
        match text(self.pathname_raw()) {
            Ok(s) => s,
            Err(_) => "",
        }
    }

    /// The size of the member's data in bytes, as the engine reports it.
    fn size(&self) -> (size: i64)
        ensures
            size == seen(self.record()).size,
    {
        match self.entry() {
            Some(record) => record.size,
            None => 0,
        }
    }

    /// The target of the symbolic link as bytes, or `None` if the member is
    /// no symbolic link.
    fn symlink_raw(&self) -> (target: Option<&[u8]>)
        ensures
            slice_view(target) == seen(self.record()).symlink,
    {
        match self.entry() {
            Some(record) => as_bytes(&record.symlink),
            None => None,
        }
    }

    /// The target of the symbolic link as text. The bytes have to be UTF-8.
    fn symlink(&self) -> (target: Option<&str>)
        requires
            is_text_field(seen(self.record()).symlink),
        ensures
            text_view(target) == field_text(seen(self.record()).symlink),
    {
        as_text(self.symlink_raw())
    }

    /// Writes the file type, as its code.
    fn set_filetype(&mut self, file_type: FileType)
        requires
            old(self).record() is Some,
        ensures
            final(self).record() == Some(
                EntryView { filetype: file_type.spec_code(), ..old(self).record().unwrap() },
            ),
    {
        let record = self.entry_mut();
        record.filetype = file_type.code();
    }

    /// Writes a link target: that of the symbolic link if the entry has one,
    /// that of the hard link otherwise. The text must have no zero byte.
    fn set_link(&mut self, path: &str)
        requires
            old(self).record() is Some,
            is_c_text(path@),
        ensures
            final(self).record() == Some(
                old(self).record().unwrap().with_link(encode_utf8(path@)),
            ),
    {
        let bytes = c_bytes(path);
        let record = self.entry_mut();
        if record.symlink.is_some() {
            record.symlink = Some(bytes);
        } else {
            record.hardlink = Some(bytes);
        }
    }

    /// Writes the member's path. The text must have no zero byte.
    fn set_pathname(&mut self, path: &str)
        requires
            old(self).record() is Some,
            is_c_text(path@),
        ensures
            final(self).record() == Some(
                EntryView {
                    pathname: Some(encode_utf8(path@)),
                    ..old(self).record().unwrap()
                },
            ),
    {
        let bytes = c_bytes(path);
        let record = self.entry_mut();
        record.pathname = Some(bytes);
    }
}

} // verus!
