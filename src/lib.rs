//! A version-aware encoder for Slippi game recordings: it turns an
//! in-memory game into the exact byte layout of the declared format version.
pub mod bytes;
pub mod version;
pub mod model;
pub mod gate;
pub mod error;
pub mod text;
pub mod event;
pub mod start;
pub mod stream;
pub mod ubjson;
pub mod validate;
pub mod envelope;
pub mod laws;

pub use envelope::{unparse, unparse_with, StartEncoding};
pub use error::UnparseError;
