use crate::classify::{classification, classify_failure};
use crate::error::EpubError;
use vstd::prelude::*;
use vstd::string::StringExecFns;

verus! {

/// The directory that holds `path`: the path without its final component.
pub uninterp spec fn parent_of(path: Seq<char>) -> Option<Seq<char>>;

/// Relies on std::path::Path::parent for the directory part of a path. The
/// result depends on the text of the path alone, and an empty path has no
/// parent. The parent of a path given as `&str` is a prefix of it, so the
/// lossy conversion back to text loses nothing.
#[verifier::external_body]
fn parent_directory(path: &str) -> (r: Option<String>)
    ensures
        r matches Some(p) ==> parent_of(path@) == Some(p@),
        r is None ==> parent_of(path@) is None,
        path@.len() == 0 ==> r is None,
{
    std::path::Path::new(path).parent().map(|p| p.to_string_lossy().into_owned())
}

/// Before the engine may write `output_path`, a non-empty parent directory
/// of it has to exist.
pub open spec fn needs_directory(output_path: Seq<char>) -> bool {
    parent_of(output_path) matches Some(p) && p.len() > 0
}

/// What the conversion engine is asked to do: fetch `url` and write an EPUB
/// document to `output_path`, titled `title` if one is given.
#[derive(Debug, Clone, PartialEq, Eq)]
pub struct ConversionRequest {
    pub url: String,
    pub output_path: String,
    pub title: Option<String>,
}

/// A conversion that waits for `directory` (and its missing ancestors) to be
/// created before its request may go to the engine.
#[derive(Debug, Clone, PartialEq, Eq)]
pub struct PendingDirectory {
    pub directory: String,
    pub request: ConversionRequest,
}

/// The next thing a caller has to do for a conversion.
#[derive(Debug, PartialEq, Eq)]
pub enum Step {
    /// Create the directory, then report how that went to
    /// [`PendingDirectory::resume`].
    CreateDirectory(PendingDirectory),
    /// Run the engine on the request, then report how that went to
    /// [`finish_conversion`].
    RunEngine(ConversionRequest),
    /// The conversion is over, with this result.
    Finish(Result<String, EpubError>),
}

/// Starts converting the page at `url` into an EPUB document at
/// `output_path`.
///
/// An empty URL is refused at once, before anything touches the disk. When
/// the output path has a parent directory, the first step is to create it;
/// otherwise the request goes straight to the engine.
pub fn url_to_epub(url: String, output_path: String, title: Option<String>) -> (r: Step)
    ensures
        url@.len() == 0 ==> r == Step::Finish(Err(EpubError::InvalidUrl)),
        url@.len() > 0 && needs_directory(output_path@) ==> (r matches Step::CreateDirectory(
            pending,
        ) && Some(pending.directory@) == parent_of(output_path@) && pending.request == (
        ConversionRequest { url, output_path, title })),
        url@.len() > 0 && !needs_directory(output_path@) ==> r == Step::RunEngine(
            (ConversionRequest { url, output_path, title }),
        ),
{
    if url.as_str().unicode_len() == 0 {
        return Step::Finish(Err(EpubError::InvalidUrl));
    }
    let parent = parent_directory(output_path.as_str());
    let request = ConversionRequest { url, output_path, title };
    match parent {
        Some(directory) => {
            if directory.as_str().unicode_len() > 0 {
                Step::CreateDirectory(PendingDirectory { directory, request })
            } else {
                Step::RunEngine(request)
            }
        },
        None => Step::RunEngine(request),
    }
}

impl PendingDirectory {
    /// Continues after the attempt to create the directory.
    ///
    /// When it failed, the conversion ends with a file system error that
    /// carries the reason, and the engine is never asked; when it succeeded,
    /// the request goes to the engine.
    pub fn resume(self, created: Result<(), String>) -> (r: Step)
        ensures
            created matches Err(d) ==> (r matches Step::Finish(
                Err(EpubError::FileSystemError(m)),
            ) && m@ == "Failed to create output directory: "@ + d@),
            created is Ok ==> r == Step::RunEngine(self.request),
    {
        match created {
            Ok(()) => Step::RunEngine(self.request),
            Err(d) => Step::Finish(
                Err(
                    EpubError::FileSystemError(
                        String::from_str("Failed to create output directory: ").concat(d.as_str()),
                    ),
                ),
            ),
        }
    }
}

/// Ends a conversion with what the engine reported: the path it wrote, or a
/// failure description, which is classified.
pub fn finish_conversion(outcome: Result<String, String>) -> (r: Result<String, EpubError>)
    ensures
        outcome matches Ok(p) ==> r == Ok::<String, EpubError>(p),
        outcome matches Err(d) ==> r == Err::<String, EpubError>(classification(d)),
{
    match outcome {
        Ok(p) => Ok(p),
        Err(d) => Err(classify_failure(d)),
    }
}

} // verus!
