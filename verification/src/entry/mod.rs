//! Entries: the metadata of one archive member, as it is read from the
//! engine or put together for it.

pub mod entry;
pub mod entry_borrowed;
pub mod entry_owned;

pub use entry::{Entry, EntryRecord, EntryView};
pub use entry_borrowed::BorrowedEntry;
pub use entry_owned::OwnedEntry;
