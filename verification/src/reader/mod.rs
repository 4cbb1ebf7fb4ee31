//! Readers: the builder that configures one, the two kinds that come out of
//! it, and what they have in common.

pub mod builder;
pub mod file_reader;
pub mod reader;
pub mod stream_reader;

pub use builder::Builder;
pub use file_reader::FileReader;
pub use reader::Reader;
pub use stream_reader::{Pipe, StreamReader};
