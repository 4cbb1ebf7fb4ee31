//! Writers.

pub mod writer;

pub use writer::Writer;
