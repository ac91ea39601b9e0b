//! Error classification and user-facing diagnostics for an archiving tool.
//!
//! Failures from the filesystem, directory traversal and the archive codecs are
//! classified into the closed taxonomy [`error::Error`], and rendered through
//! the [`message::FinalError`] builder into a single diagnostic text, in a
//! standard or an accessible presentation.

pub mod error;
pub mod message;
pub mod text;

pub use error::{Error, ErrorView, IoCategory, Result};
pub use message::{FinalError, MessageView};
