use flickr_warc::canonical::{filename_is_canonical, is_canonical, judge, UrlError};

#[test]
fn original_file_name_is_canonical() {
    assert!(filename_is_canonical("abc123.jpg"));
    assert!(filename_is_canonical("123_abc.jpg"));
    assert!(filename_is_canonical(""));
    assert!(filename_is_canonical("_a"));
    assert!(filename_is_canonical("a_.jpg"));
}

#[test]
fn suffixed_file_name_is_not_canonical() {
    assert!(!filename_is_canonical("abc123_m.jpg"));
    assert!(!filename_is_canonical("123_abc_o.png"));
    assert!(!filename_is_canonical("_z."));
}

#[test]
fn suffix_letter_must_be_one_lower_case_ascii_letter() {
    assert!(filename_is_canonical("abc_M.jpg"));
    assert!(filename_is_canonical("abc_1.jpg"));
    assert!(filename_is_canonical("abc_mm.jpg"));
    assert!(filename_is_canonical("abc_\u{E9}.jpg"));
    assert!(filename_is_canonical("abc-m.jpg"));
}

#[test]
fn suffix_is_found_anywhere_in_the_file_name() {
    assert!(!filename_is_canonical("a_b.c.jpg"));
    assert!(!filename_is_canonical("x_y.jpg_large"));
}

#[test]
fn canonical_url_of_an_original() {
    assert_eq!(is_canonical("https://live.staticflickr.com/123_abc.jpg"), Ok(true));
    assert_eq!(is_canonical("https://live.staticflickr.com/65535/123_abc.jpg"), Ok(true));
}

#[test]
fn url_of_a_variant_is_not_canonical() {
    assert_eq!(is_canonical("https://live.staticflickr.com/123_abc_m.jpg"), Ok(false));
    assert_eq!(is_canonical("https://live.staticflickr.com/65535/123_abc_b.jpg?x=1"), Ok(false));
}

#[test]
fn only_the_last_segment_is_judged() {
    assert_eq!(is_canonical("https://live.staticflickr.com/dir_m.old/123_abc.jpg"), Ok(true));
    assert_eq!(is_canonical("https://live_m.staticflickr.com/123_abc.jpg"), Ok(true));
    assert_eq!(is_canonical("https://live.staticflickr.com/123_abc.jpg?size=_m.jpg"), Ok(true));
    assert_eq!(is_canonical("https://live.staticflickr.com/123_abc_m.jpg/"), Ok(true));
}

#[test]
fn url_without_a_path_has_an_empty_file_name() {
    assert_eq!(is_canonical("https://live.staticflickr.com"), Ok(true));
}

#[test]
fn unparsable_url_is_an_error() {
    assert_eq!(is_canonical("not a url"), Err(UrlError::Unparsable));
    assert_eq!(is_canonical(""), Err(UrlError::Unparsable));
    assert_eq!(is_canonical("//live.staticflickr.com/123_abc.jpg"), Err(UrlError::Unparsable));
}

#[test]
fn url_without_path_segments_is_an_error() {
    assert_eq!(is_canonical("data:text/plain,Hello_m.jpg"), Err(UrlError::NoPath));
    assert_eq!(is_canonical("mailto:alice_m.smith@example.com"), Err(UrlError::NoPath));
}

fn segments(parts: &[&str]) -> Vec<String> {
    parts.iter().map(|part| part.to_string()).collect()
}

#[test]
fn judge_goes_by_the_last_segment() {
    assert_eq!(judge(Ok(Some(segments(&["65535", "123_abc.jpg"])))), Ok(true));
    assert_eq!(judge(Ok(Some(segments(&["65535", "123_abc_m.jpg"])))), Ok(false));
    assert_eq!(judge(Ok(Some(segments(&["123_abc_m.jpg", "123_abc.jpg"])))), Ok(true));
    assert_eq!(judge(Ok(Some(segments(&["123_abc.jpg", "123_abc_m.jpg"])))), Ok(false));
    assert_eq!(judge(Ok(Some(segments(&[""])))), Ok(true));
}

#[test]
fn judge_refuses_what_has_no_file_name() {
    assert_eq!(judge(Ok(Some(segments(&[])))), Err(UrlError::NoPath));
    assert_eq!(judge(Ok(None)), Err(UrlError::NoPath));
    assert_eq!(judge(Err(url::ParseError::RelativeUrlWithoutBase)), Err(UrlError::Unparsable));
    assert_eq!(judge(Err(url::ParseError::EmptyHost)), Err(UrlError::Unparsable));
}
