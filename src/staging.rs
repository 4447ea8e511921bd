use crate::error::EpubError;
use vstd::prelude::*;
use vstd::string::StringExecFns;

verus! {

/// The file name a conversion is staged under inside its own temporary
/// directory; every staging gets a fresh directory, so one name serves all.
pub const STAGED_FILE_NAME: &'static str = "output.epub";

/// What can go wrong around a conversion whose result is wanted as bytes.
#[derive(Debug, Clone, PartialEq, Eq)]
pub enum StagingFailure {
    /// The temporary directory could not be created, for this reason.
    TempDirectory(String),
    /// The staged file's path cannot be handed on as text.
    TempPath,
    /// The staged file could not be read back, for this reason.
    ReadBack(String),
}

impl StagingFailure {
    /// The diagnostic text a staging failure is reported with.
    pub open spec fn description(self) -> Seq<char> {
        match self {
            StagingFailure::TempDirectory(d) => "Failed to create temp directory: "@ + d@,
            StagingFailure::TempPath => "Invalid temp path"@,
            StagingFailure::ReadBack(d) => "Failed to read EPUB file: "@ + d@,
        }
    }

    /// Reports the failure across the boundary: always as a file system
    /// error, whose text names the stage that failed and keeps its reason.
    pub fn into_error(self) -> (r: EpubError)
        ensures
            r matches EpubError::FileSystemError(m) && m@ == self.description(),
    {
        let text = match self {
            StagingFailure::TempDirectory(d) => String::from_str(
                "Failed to create temp directory: ",
            ).concat(d.as_str()),
            StagingFailure::TempPath => String::from_str("Invalid temp path"),
            StagingFailure::ReadBack(d) => String::from_str("Failed to read EPUB file: ").concat(
                d.as_str(),
            ),
        };
        EpubError::FileSystemError(text)
    }
}

/// Ends a conversion to bytes with the outcome of reading the staged file
/// back: its bytes, or a file system error that says why it could not be read.
pub fn read_back(read: Result<Vec<u8>, String>) -> (r: Result<Vec<u8>, EpubError>)
    ensures
        read matches Ok(b) ==> r == Ok::<Vec<u8>, EpubError>(b),
        read matches Err(d) ==> (r matches Err(EpubError::FileSystemError(m)) && m@
            == StagingFailure::ReadBack(d).description()),
{
    match read {
        Ok(b) => Ok(b),
        Err(d) => Err(StagingFailure::ReadBack(d).into_error()),
    }
}

} // verus!
