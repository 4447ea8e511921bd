use vstd::prelude::*;
use vstd::string::StringExecFns;

verus! {

/// The closed set of failures that crosses the boundary.
///
/// `InvalidUrl` carries nothing: it is a caller-input error. The other kinds
/// carry the diagnostic text they were made from.
#[derive(Debug, Clone, PartialEq, Eq)]
pub enum EpubError {
    InvalidUrl,
    DownloadFailed(String),
    ProcessingFailed(String),
    FileSystemError(String),
}

impl EpubError {
    /// The human-readable message of the error.
    pub open spec fn message_spec(self) -> Seq<char> {
        match self {
            EpubError::InvalidUrl => "Invalid URL provided"@,
            EpubError::DownloadFailed(d) => "Failed to download content: "@ + d@,
            EpubError::ProcessingFailed(d) => "Failed to process content: "@ + d@,
            EpubError::FileSystemError(d) => "File system error: "@ + d@,
        }
    }

    /// Renders the error as the message a host shows to its user.
    pub fn message(&self) -> (r: String)
        ensures
            r@ == self.message_spec(),
    {
        match self {
            EpubError::InvalidUrl => String::from_str("Invalid URL provided"),
            EpubError::DownloadFailed(d) => String::from_str(
                "Failed to download content: ",
            ).concat(d.as_str()),
            EpubError::ProcessingFailed(d) => String::from_str(
                "Failed to process content: ",
            ).concat(d.as_str()),
            EpubError::FileSystemError(d) => String::from_str("File system error: ").concat(
                d.as_str(),
            ),
        }
    }
}

} // verus!
