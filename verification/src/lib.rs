//! The verified core of a binding to a streaming archive engine.
//!
//! The engine itself (format parsing, decompression) lives behind a foreign
//! call interface that only a driver can reach. Everything the binding
//! *decides* lives here: how an engine status becomes a typed result, which
//! state a builder or reader is in after a call, how an entry's raw fields
//! are read, how a byte source is bridged into the engine's read and seek
//! callbacks, and how a member's payload is put together from the pieces the
//! engine hands over. The driver performs each engine call and passes what
//! came back to the function that decides.

pub mod archive;
pub mod entry;
pub mod error;
pub mod reader;
pub mod text;
pub mod writer;
