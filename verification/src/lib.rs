//! Locating an application's configuration file and choosing the codec for it.
//!
//! The crate decides where a configuration file lives, which of several
//! candidate files is read, and which format a file is decoded from or encoded
//! to. Of the host it asks only where its directories are and whether a file
//! is there. It decodes and encodes nothing and neither reads nor writes a
//! file: callers do that with the answers given here.
//!
//! - [`format`]: the formats and the table from extensions to codecs.
//! - [`loader`]: the loader's configuration, the directory it resolves to,
//!   the candidate files, the search among them and the plan for a save.
//! - [`search`]: the ordered probe in which the first file present wins.
//! - [`path`]: how paths are composed and how an extension is read off one.
//! - [`text`]: comparing text and folding its case.
//! - [`error`]: the failures.

pub mod error;
pub mod format;
mod host;
pub mod loader;
pub mod path;
pub mod search;
pub mod text;

pub use crate::error::{DeserializationError, SerializationError, UniversalConfigError};
pub use crate::format::{decoder_for, decoder_for_path, Encoder, Format};
pub use crate::loader::{ConfigLoader, SavePlan};
