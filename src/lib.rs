//! Turning a web page into an EPUB document, as seen from a foreign host.
//!
//! The library owns the decisions of a conversion: which directory must exist
//! before the conversion engine runs, when the engine may run at all, and how
//! every failure is collapsed into the closed [`EpubError`] taxonomy. The work
//! itself (creating directories, running the engine, staging files) is done by
//! the caller, which reports each outcome back.

mod classify;
mod conversion;
mod error;
mod staging;

pub use classify::{classification, classify_failure, contains_text, mentions, occurs_at};
pub use conversion::{
    finish_conversion, needs_directory, parent_of, url_to_epub, ConversionRequest,
    PendingDirectory, Step,
};
pub use error::EpubError;
pub use staging::{read_back, StagingFailure, STAGED_FILE_NAME};

