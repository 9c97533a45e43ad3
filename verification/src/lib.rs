//! Loading of rustdoc JSON documents: the declared format version is read
//! first, then the document is checked against that version's schema and
//! handed out under a tag that names the version.
//!
//! There are two loaders with one contract. [`load_rustdoc`] parses the text
//! with `serde_json`, once to detect the version and once to load.
//! [`simd_load_rustdoc`] builds one tape with `simd_json` and reads it for
//! both. Neither touches the file system: both take the bytes of the file.
//!
//! The functions of this crate are verified with Verus. What is taken on
//! trust are the contracts of the calls into `serde_json`, `simd_json` and
//! `core::str`, which stand in the modules `json`, `tape` and `text`.

pub mod error;
pub mod guarantees;
pub mod json;
pub mod nesting;
pub mod parser;
pub mod schema;
pub mod tape;
pub mod text;
pub mod version;
pub mod versioned;

pub use error::{Cause, CauseKind, Field, IoStep, LoadError};
pub use parser::{load_rustdoc, simd_load_rustdoc};
pub use schema::Crate;
pub use version::SupportedVersion;
pub use versioned::VersionedCrate;
