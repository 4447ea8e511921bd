use hub::{
    classify_failure, contains_text, finish_conversion, read_back, url_to_epub, ConversionRequest,
    EpubError, PendingDirectory, StagingFailure, Step, STAGED_FILE_NAME,
};

fn text(s: &str) -> String {
    s.to_string()
}

#[test]
fn url_keyword_wins_over_every_other_keyword() {
    let d = text("URL rejected: download of file failed, permission denied");
    assert_eq!(classify_failure(d), EpubError::InvalidUrl);
    assert_eq!(classify_failure(text("invalid URL")), EpubError::InvalidUrl);
}

#[test]
fn download_keyword_keeps_the_description() {
    let d = text("download interrupted while writing file");
    assert_eq!(classify_failure(d.clone()), EpubError::DownloadFailed(d));
}

#[test]
fn file_or_permission_keyword_is_a_file_system_error() {
    let d = text("could not open file /tmp/x");
    assert_eq!(classify_failure(d.clone()), EpubError::FileSystemError(d));
    let p = text("permission denied (os error 13)");
    assert_eq!(classify_failure(p.clone()), EpubError::FileSystemError(p));
}

#[test]
fn anything_else_is_a_processing_failure() {
    let d = text("no article body found in page");
    assert_eq!(classify_failure(d.clone()), EpubError::ProcessingFailed(d));
    assert_eq!(classify_failure(text("")), EpubError::ProcessingFailed(text("")));
}

#[test]
fn keywords_are_matched_with_their_case() {
    let d = text("bad url, Download refused, File missing, Permission gone");
    assert_eq!(classify_failure(d.clone()), EpubError::ProcessingFailed(d));
}

#[test]
fn contains_text_finds_words_anywhere() {
    assert!(contains_text("abc", ""));
    assert!(contains_text("", ""));
    assert!(!contains_text("", "a"));
    assert!(contains_text("the file", "file"));
    assert!(contains_text("file", "file"));
    assert!(!contains_text("fil", "file"));
    assert!(contains_text("héllo wörld", "wö"));
    assert!(!contains_text("fi le", "file"));
}

#[test]
fn conversion_with_a_parent_directory_runs_to_the_engine_path() {
    let step = url_to_epub(
        text("https://example.com/article"),
        text("/tmp/out/book.epub"),
        None,
    );
    let request = ConversionRequest {
        url: text("https://example.com/article"),
        output_path: text("/tmp/out/book.epub"),
        title: None,
    };
    let pending = match step {
        Step::CreateDirectory(p) => p,
        other => panic!("expected a directory step, got {:?}", other),
    };
    assert_eq!(pending.directory, text("/tmp/out"));
    assert_eq!(pending.request, request);
    let step = pending.resume(Ok(()));
    assert_eq!(step, Step::RunEngine(request));
    assert_eq!(
        finish_conversion(Ok(text("/tmp/out/book.epub"))),
        Ok(text("/tmp/out/book.epub"))
    );
}

#[test]
fn url_failure_from_the_engine_has_no_detail() {
    let step = url_to_epub(text("not-a-url"), text("book.epub"), Some(text("T")));
    assert_eq!(
        step,
        Step::RunEngine(ConversionRequest {
            url: text("not-a-url"),
            output_path: text("book.epub"),
            title: Some(text("T")),
        })
    );
    let r = finish_conversion(Err(text("relative URL without a base")));
    assert_eq!(r, Err(EpubError::InvalidUrl));
}

#[test]
fn empty_url_is_refused_before_any_work() {
    let step = url_to_epub(text(""), text("/tmp/out/book.epub"), None);
    assert_eq!(step, Step::Finish(Err(EpubError::InvalidUrl)));
}

#[test]
fn path_without_directory_goes_straight_to_the_engine() {
    let step = url_to_epub(text("https://example.com"), text(""), None);
    assert!(matches!(step, Step::RunEngine(_)));
    let step = url_to_epub(text("https://example.com"), text("book.epub"), None);
    assert!(matches!(step, Step::RunEngine(_)));
}

#[test]
fn denied_directory_ends_with_a_file_system_error() {
    let pending = PendingDirectory {
        directory: text("/root/locked"),
        request: ConversionRequest {
            url: text("https://example.com/article"),
            output_path: text("/root/locked/book.epub"),
            title: None,
        },
    };
    let step = pending.resume(Err(text("Permission denied (os error 13)")));
    assert_eq!(
        step,
        Step::Finish(Err(EpubError::FileSystemError(text(
            "Failed to create output directory: Permission denied (os error 13)"
        ))))
    );
}

#[test]
fn engine_failures_are_classified() {
    assert_eq!(
        finish_conversion(Err(text("download failed: timeout"))),
        Err(EpubError::DownloadFailed(text("download failed: timeout")))
    );
    assert_eq!(
        finish_conversion(Err(text("packaging error"))),
        Err(EpubError::ProcessingFailed(text("packaging error")))
    );
}

#[test]
fn error_messages() {
    assert_eq!(EpubError::InvalidUrl.message(), text("Invalid URL provided"));
    assert_eq!(
        EpubError::DownloadFailed(text("x")).message(),
        text("Failed to download content: x")
    );
    assert_eq!(
        EpubError::ProcessingFailed(text("y")).message(),
        text("Failed to process content: y")
    );
    assert_eq!(
        EpubError::FileSystemError(text("z")).message(),
        text("File system error: z")
    );
}

#[test]
fn staging_failures_are_file_system_errors() {
    assert_eq!(
        StagingFailure::TempDirectory(text("disk full")).into_error(),
        EpubError::FileSystemError(text("Failed to create temp directory: disk full"))
    );
    assert_eq!(
        StagingFailure::TempPath.into_error(),
        EpubError::FileSystemError(text("Invalid temp path"))
    );
    assert_eq!(
        StagingFailure::ReadBack(text("gone")).into_error(),
        EpubError::FileSystemError(text("Failed to read EPUB file: gone"))
    );
    assert_eq!(STAGED_FILE_NAME, "output.epub");
}

#[test]
fn read_back_hands_over_all_bytes() {
    let bytes: Vec<u8> = (0..5120u32).map(|i| (i % 251) as u8).collect();
    assert_eq!(read_back(Ok(bytes.clone())), Ok(bytes));
    assert_eq!(
        read_back(Err(text("No such file or directory (os error 2)"))),
        Err(EpubError::FileSystemError(text(
            "Failed to read EPUB file: No such file or directory (os error 2)"
        )))
    );
}
