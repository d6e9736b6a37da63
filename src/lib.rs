//! A key-value store that keeps one record per key: a flag byte, then the
//! value either as it is or in the Snappy frame format.
//!
//! The library decides and encodes; the caller performs the file operations
//! and hands over what the filesystem reported.

pub mod error;
pub mod okof;
pub mod record;

pub use error::Error;
pub use okof::Stored;
