//! The entry that stands alone.

use vstd::prelude::*;

use super::entry::{Entry, EntryRecord, EntryView};

verus! {

/// An entry with a record of its own, as one is put together for writing.
/// The record is known by the address that the engine gave out, which is
/// never null, and is freed with the entry.
#[derive(Debug)]
pub struct OwnedEntry {
    raw: usize,
    record: EntryRecord,
}

impl OwnedEntry {
    /// The address of the record.
    pub closed spec fn spec_raw(&self) -> usize {
        self.raw
    }

    /// Takes charge of the record that the engine allocated at `raw`: an
    /// empty one. A null address means that the allocation failed, and gives
    /// no entry.
    pub fn new(raw: usize) -> (entry: Option<Self>)
        ensures
            entry is None <==> raw == 0,
            entry matches Some(e) ==> e.spec_raw() == raw && e.record() == Some(
                EntryView::empty(),
            ),
    {
        if raw == 0 {
            None
        } else {
            Some(OwnedEntry { raw, record: EntryRecord::empty() })
        }
    }

    /// The address of the record, for the calls made on it and for the one
    /// that frees it.
    #[verifier::when_used_as_spec(spec_raw)]
    pub fn raw(&self) -> (raw: usize)
        ensures
            raw == self.spec_raw(),
    {
        self.raw
    }
}

impl Entry for OwnedEntry {
    closed spec fn record(&self) -> Option<EntryView> {
        Some(self.record@)
    }

    fn entry(&self) -> (record: Option<&EntryRecord>) {
        Some(&self.record)
    }

    fn entry_mut(&mut self) -> (record: &mut EntryRecord)
        ensures
            final(self).spec_raw() == old(self).spec_raw(),
    {
        &mut self.record
    }
}

} // verus!
