use crate::error::EpubError;
use vstd::prelude::*;
use vstd::string::StrSliceExecFns;

verus! {

/// `word` stands in `text` starting at position `i`.
pub open spec fn occurs_at(text: Seq<char>, word: Seq<char>, i: int) -> bool {
    0 <= i && i + word.len() <= text.len() && text.subrange(i, i + word.len()) == word
}

/// `word` stands somewhere in `text`.
pub open spec fn mentions(text: Seq<char>, word: Seq<char>) -> bool {
    exists|i: int| #[trigger] occurs_at(text, word, i)
}

/// The kind a failure description is filed under, checked in a fixed
/// priority order: a URL problem, then a download problem, then a file or
/// permission problem, and anything else as a processing failure.
pub open spec fn classification(description: String) -> EpubError {
    let d = description@;
    if mentions(d, "URL"@) {
        EpubError::InvalidUrl
    } else if mentions(d, "download"@) {
        EpubError::DownloadFailed(description)
    } else if mentions(d, "file"@) || mentions(d, "permission"@) {
        EpubError::FileSystemError(description)
    } else {
        EpubError::ProcessingFailed(description)
    }
}

/// Whether `word` stands in `text` at position `i`.
fn matches_at(text: &str, word: &str, i: usize) -> (r: bool)
    requires
        i + word@.len() <= text@.len(),
        text@.len() <= usize::MAX,
    ensures
        r == occurs_at(text@, word@, i as int),
{
    let m = word.unicode_len();
    let mut k: usize = 0;
    while k < m
        invariant
            m == word@.len(),
            i + m <= text@.len(),
            text@.len() <= usize::MAX,
            k <= m,
            forall|t: int| 0 <= t < k ==> text@[i + t] == word@[t],
        decreases m - k,
    {
        if text.get_char(i + k) != word.get_char(k) {
            assert(text@.subrange(i as int, i + m)[k as int] != word@[k as int]);
            return false;
        }
        k += 1;
    }
    assert(text@.subrange(i as int, i + m) =~= word@);
    true
}

/// Whether `word` stands anywhere in `text`.
pub fn contains_text(text: &str, word: &str) -> (r: bool)
    ensures
        r == mentions(text@, word@),
{
    let n = text.unicode_len();
    let m = word.unicode_len();
    if m > n {
        return false;
    }
    if m == 0 {
        assert(text@.subrange(0, 0) =~= word@);
        assert(occurs_at(text@, word@, 0));
        return true;
    }
    let mut i: usize = 0;
    while i <= n - m
        invariant
            n == text@.len(),
            m == word@.len(),
            0 < m <= n,
            i <= n - m + 1,
            forall|j: int| 0 <= j < i ==> !#[trigger] occurs_at(text@, word@, j),
        decreases n - m + 1 - i,
    {
        if matches_at(text, word, i) {
            return true;
        }
        i += 1;
    }
    false
}

/// Files a free-text failure description under one kind of [`EpubError`].
///
/// The URL check wins over every other keyword, the download check over the
/// file and permission checks; whatever matches none of them is a processing
/// failure. Every description gets a kind, and every kind but `InvalidUrl`
/// keeps the description word for word.
pub fn classify_failure(description: String) -> (e: EpubError)
    ensures
        e == classification(description),
        mentions(description@, "URL"@) ==> e == EpubError::InvalidUrl,
        !mentions(description@, "URL"@) && mentions(description@, "download"@) ==> e
            == EpubError::DownloadFailed(description),
        !mentions(description@, "URL"@) && !mentions(description@, "download"@) && (mentions(
            description@,
            "file"@,
        ) || mentions(description@, "permission"@)) ==> e == EpubError::FileSystemError(
            description,
        ),
        !mentions(description@, "URL"@) && !mentions(description@, "download"@) && !mentions(
            description@,
            "file"@,
        ) && !mentions(description@, "permission"@) ==> e == EpubError::ProcessingFailed(
            description,
        ),
{
    if contains_text(description.as_str(), "URL") {
        EpubError::InvalidUrl
    } else if contains_text(description.as_str(), "download") {
        EpubError::DownloadFailed(description)
    } else if contains_text(description.as_str(), "file") || contains_text(
        description.as_str(),
        "permission",
    ) {
        EpubError::FileSystemError(description)
    } else {
        EpubError::ProcessingFailed(description)
    }
}

} // verus!
