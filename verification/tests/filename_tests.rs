use update_check::filename::extract_filename_from_url;

#[test]
fn query_string_is_stripped() {
    assert_eq!(
        extract_filename_from_url("https://host/path/app-v2.zip?token=abc"),
        "app-v2.zip"
    );
}

#[test]
fn empty_trailing_segment_falls_back() {
    assert_eq!(extract_filename_from_url("https://host/"), "update.zip");
}

#[test]
fn plain_url_keeps_last_segment() {
    assert_eq!(
        extract_filename_from_url("https://host/a/b/c/release.tar.gz"),
        "release.tar.gz"
    );
}

#[test]
fn no_slash_keeps_whole_string() {
    assert_eq!(extract_filename_from_url("file.zip"), "file.zip");
}

#[test]
fn degenerate_inputs_fall_back() {
    assert_eq!(extract_filename_from_url(""), "update.zip");
    assert_eq!(extract_filename_from_url("?token=abc"), "update.zip");
    assert_eq!(extract_filename_from_url("https://host/dir/?sig=1"), "update.zip");
}

#[test]
fn only_first_question_mark_counts() {
    assert_eq!(
        extract_filename_from_url("https://host/d/app.zip?a=1?b=/2"),
        "app.zip"
    );
}
