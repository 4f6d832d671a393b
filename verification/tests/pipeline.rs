use flickr_warc::canonical::UrlError;
use flickr_warc::driver::{
    classify_target, correlate, file_verdict, parse_record, process_image, process_page, Header,
    IgnoreReason, Record, RecordError, RecordKind, RecordOutcome, TargetCategory,
};
use flickr_warc::envelope::EnvelopeError;
use flickr_warc::metadata::{Dimensions, ImageExample, ImageMetadata};
use flickr_warc::page::{ExtractError, Field, Flaw, Marker, PageVerdict, SelectError};
use flickr_warc::store::CorrelationStore;

const PAGE_URL: &str = "https://www.flickr.com/photos/x/123/";
const IMAGE_URL: &str = "https://live.staticflickr.com/123_abc.jpg";
const VARIANT_URL: &str = "https://live.staticflickr.com/123_abc_m.jpg";

const PAGE: &str = "<!DOCTYPE html><html><head>\
<meta property=\"og:title\" content=\"Sunset\">\
<meta property=\"og:description\" content=\"A view.\">\
</head><body>\
<a class=\"photo-license-url\" href=\"https://creativecommons.org/licenses/by/2.0/\">license</a>\
<span class=\"comment-count-label\">1,234</span>\
<span class=\"fave-count-label\">56</span>\
<span class=\"view-count-label\">789</span>\
<a class=\"owner-name\">alice</a>\
<img class=\"main-photo\" src=\"//live.staticflickr.com/123_abc.jpg\">\
</body></html>";

fn tiny_jpeg() -> Vec<u8> {
    vec![
        0xFF, 0xD8, 0xFF, 0xE0, 0x00, 0x10, b'J', b'F', b'I', b'F', 0x00, 0x01, 0x01, 0x00, 0x00,
        0x01, 0x00, 0x01, 0x00, 0x00, 0xFF, 0xC0, 0x00, 0x11, 0x08, 0x00, 0x20, 0x00, 0x30, 0x03,
        0x01, 0x22, 0x00, 0x02, 0x11, 0x01, 0x03, 0x11, 0x01, 0xFF, 0xD9,
    ]
}

fn header(name: &str, value: &[u8]) -> Header {
    Header { name: name.to_string(), value: value.to_vec() }
}

fn record(kind: &str, target: &str, body: Vec<u8>) -> Record {
    Record {
        headers: vec![
            header("WARC-Record-ID", b"<urn:uuid:1>"),
            header("WARC-Type", kind.as_bytes()),
            header("WARC-Target-URI", target.as_bytes()),
        ],
        body,
    }
}

fn answer(status: &str, payload: &[u8]) -> Vec<u8> {
    let mut body = format!("HTTP/1.1 {}\r\nServer: test\r\n\r\n", status).into_bytes();
    body.extend_from_slice(payload);
    body
}

fn page_record(target: &str, html: &str) -> Record {
    record("response", target, answer("200 OK", html.as_bytes()))
}

fn image_record(target: &str) -> Record {
    record("response", target, answer("200 OK", &tiny_jpeg()))
}

fn expected_metadata() -> ImageMetadata {
    ImageMetadata {
        comment_count: 1234,
        fave_count: 56,
        view_count: 789,
        license: "https://creativecommons.org/licenses/by/2.0/".to_string(),
        tags: "".to_string(),
        title: "Sunset".to_string(),
        description: "A view.".to_string(),
        owner: "alice".to_string(),
        img_src: IMAGE_URL.to_string(),
    }
}

fn expected_example() -> ImageExample {
    ImageExample { metadata: expected_metadata(), file: tiny_jpeg(), width: 48, height: 32 }
}

fn run(records: &[Record]) -> Vec<RecordOutcome> {
    let mut store = CorrelationStore::new();
    records.iter().map(|record| parse_record(record, &mut store)).collect()
}

#[test]
fn page_then_image_gives_one_example() {
    let outcomes = run(&[page_record(PAGE_URL, PAGE), image_record(IMAGE_URL)]);
    assert_eq!(
        outcomes,
        vec![RecordOutcome::MetadataUpdated, RecordOutcome::ExampleEmitted(expected_example())]
    );
}

#[test]
fn page_then_variant_gives_no_example() {
    let outcomes = run(&[page_record(PAGE_URL, PAGE), image_record(VARIANT_URL)]);
    assert_eq!(
        outcomes,
        vec![RecordOutcome::MetadataUpdated, RecordOutcome::Ignored(IgnoreReason::DerivedAsset)]
    );
}

#[test]
fn image_without_metadata_is_rejected_and_the_run_goes_on() {
    let other = "https://live.staticflickr.com/999_zzz.jpg";
    let outcomes = run(&[
        image_record(other),
        page_record(PAGE_URL, PAGE),
        image_record(other),
        image_record(IMAGE_URL),
    ]);
    assert_eq!(
        outcomes,
        vec![
            RecordOutcome::Rejected(RecordError::CorrelationMiss),
            RecordOutcome::MetadataUpdated,
            RecordOutcome::Rejected(RecordError::CorrelationMiss),
            RecordOutcome::ExampleEmitted(expected_example()),
        ]
    );
}

#[test]
fn image_before_its_page_is_a_miss() {
    let outcomes = run(&[image_record(IMAGE_URL), page_record(PAGE_URL, PAGE)]);
    assert_eq!(
        outcomes,
        vec![RecordOutcome::Rejected(RecordError::CorrelationMiss), RecordOutcome::MetadataUpdated]
    );
}

#[test]
fn metadata_is_used_once() {
    let outcomes =
        run(&[page_record(PAGE_URL, PAGE), image_record(IMAGE_URL), image_record(IMAGE_URL)]);
    assert_eq!(
        outcomes,
        vec![
            RecordOutcome::MetadataUpdated,
            RecordOutcome::ExampleEmitted(expected_example()),
            RecordOutcome::Rejected(RecordError::CorrelationMiss),
        ]
    );
}

#[test]
fn later_page_for_the_same_image_wins() {
    let second = PAGE.replace("alice", "bob");
    let outcomes = run(&[
        page_record(PAGE_URL, PAGE),
        page_record("https://www.flickr.com/photos/y/456/", &second),
        image_record(IMAGE_URL),
    ]);
    let mut example = expected_example();
    example.metadata.owner = "bob".to_string();
    assert_eq!(outcomes[2], RecordOutcome::ExampleEmitted(example));
}

#[test]
fn variant_leaves_the_metadata_for_the_original() {
    let outcomes =
        run(&[page_record(PAGE_URL, PAGE), image_record(VARIANT_URL), image_record(IMAGE_URL)]);
    assert_eq!(outcomes[2], RecordOutcome::ExampleEmitted(expected_example()));
}

#[test]
fn other_record_types_are_ignored() {
    for kind in ["request", "metadata", "warcinfo", "Response", ""] {
        let outcomes = run(&[record(kind, IMAGE_URL, answer("200 OK", &tiny_jpeg()))]);
        assert_eq!(outcomes, vec![RecordOutcome::Ignored(IgnoreReason::NotResponse)]);
    }
    let untyped = Record { headers: vec![], body: vec![] };
    assert_eq!(untyped.kind(), RecordKind::Other);
    assert_eq!(run(&[untyped]), vec![RecordOutcome::Ignored(IgnoreReason::NotResponse)]);
}

#[test]
fn first_header_of_a_name_counts() {
    let doubled = Record {
        headers: vec![header("WARC-Type", b"request"), header("WARC-Type", b"response")],
        body: vec![],
    };
    assert_eq!(doubled.header("WARC-Type"), Some(&b"request".to_vec()));
    assert_eq!(doubled.header("warc-type"), None);
    assert_eq!(doubled.kind(), RecordKind::Other);
}

#[test]
fn response_without_target_is_rejected() {
    let untargeted = Record { headers: vec![header("WARC-Type", b"response")], body: vec![] };
    assert_eq!(untargeted.kind(), RecordKind::Response);
    assert_eq!(untargeted.target(), Err(RecordError::MissingTarget));
    assert_eq!(run(&[untargeted]), vec![RecordOutcome::Rejected(RecordError::MissingTarget)]);
}

#[test]
fn target_must_be_text() {
    let mut garbled = image_record(IMAGE_URL);
    garbled.headers[2].value = vec![b'h', 0xFF, b'p'];
    assert_eq!(garbled.target(), Err(RecordError::TargetNotText));
    assert_eq!(run(&[garbled]), vec![RecordOutcome::Rejected(RecordError::TargetNotText)]);
    assert_eq!(image_record(IMAGE_URL).target(), Ok(IMAGE_URL));
}

#[test]
fn envelope_failure_rejects_the_record() {
    let cut = record("response", IMAGE_URL, b"HTTP/1.1 200 OK\r\nServer: t".to_vec());
    let broken = record("response", PAGE_URL, PAGE.as_bytes().to_vec());
    assert_eq!(
        run(&[cut, broken]),
        vec![
            RecordOutcome::Rejected(RecordError::Envelope(EnvelopeError::Incomplete)),
            RecordOutcome::Rejected(RecordError::Envelope(EnvelopeError::Malformed)),
        ]
    );
}

#[test]
fn targets_are_classified() {
    assert_eq!(classify_target(PAGE_URL), TargetCategory::Page);
    assert_eq!(classify_target("https://www.flickr.com/photos/"), TargetCategory::Page);
    assert_eq!(
        classify_target("https://www.flickr.com/photos/staticflickr.com/buddyicons"),
        TargetCategory::Page
    );
    assert_eq!(classify_target(IMAGE_URL), TargetCategory::ImageAsset);
    assert_eq!(classify_target(VARIANT_URL), TargetCategory::ImageAsset);
    assert_eq!(
        classify_target("https://farm1.staticflickr.com/buddyicons/1.jpg"),
        TargetCategory::IconAsset
    );
    assert_eq!(
        classify_target("https://combo.staticflickr.com/ap/build/images/buddyicons.png"),
        TargetCategory::IconAsset
    );
    assert_eq!(classify_target("https://www.flickr.com/explore"), TargetCategory::Uncategorized);
    assert_eq!(classify_target("http://www.flickr.com/photos/x/1/"), TargetCategory::Uncategorized);
    assert_eq!(classify_target(""), TargetCategory::Uncategorized);
}

#[test]
fn icons_and_other_targets_are_ignored() {
    let outcomes = run(&[
        image_record("https://farm1.staticflickr.com/buddyicons/1.jpg"),
        image_record("https://www.flickr.com/explore"),
        record("response", "https://farm1.staticflickr.com/buddyicons/2.jpg", answer("200 OK", b"")),
    ]);
    assert_eq!(
        outcomes,
        vec![
            RecordOutcome::Ignored(IgnoreReason::IconAsset),
            RecordOutcome::Ignored(IgnoreReason::Uncategorized),
            RecordOutcome::Ignored(IgnoreReason::IconAsset),
        ]
    );
}

#[test]
fn unsuccessful_page_is_rejected() {
    let missing = record("response", PAGE_URL, answer("404 Not Found", PAGE.as_bytes()));
    let old = record("response", PAGE_URL, {
        let mut body = b"HTTP/1.0 200 OK\r\n\r\n".to_vec();
        body.extend_from_slice(PAGE.as_bytes());
        body
    });
    let outcomes = run(&[missing, old, image_record(IMAGE_URL)]);
    assert_eq!(
        outcomes,
        vec![
            RecordOutcome::Rejected(RecordError::PageNotSuccessful),
            RecordOutcome::Rejected(RecordError::PageNotSuccessful),
            RecordOutcome::Rejected(RecordError::CorrelationMiss),
        ]
    );
}

#[test]
fn page_must_be_text() {
    let garbled = record("response", PAGE_URL, answer("200 OK", &[b'<', 0xC3, b'>']));
    let garbled_and_missing = record("response", PAGE_URL, answer("404 Not Found", &[0xFF]));
    assert_eq!(
        run(&[garbled, garbled_and_missing]),
        vec![
            RecordOutcome::Rejected(RecordError::PageNotText),
            RecordOutcome::Rejected(RecordError::PageNotText),
        ]
    );
}

#[test]
fn filtered_page_updates_nothing() {
    let sizes = PAGE.replace("</body>", "<h1 id=\"all-sizes-header\">All sizes</h1></body>");
    let outcomes = run(&[page_record(PAGE_URL, &sizes), image_record(IMAGE_URL)]);
    assert_eq!(
        outcomes,
        vec![
            RecordOutcome::Ignored(IgnoreReason::FilteredPage(Marker::AllSizes)),
            RecordOutcome::Rejected(RecordError::CorrelationMiss),
        ]
    );
}

#[test]
fn flawed_page_is_rejected_and_the_run_goes_on() {
    let flawed = PAGE.replace("owner-name", "owner");
    let outcomes = run(&[
        page_record(PAGE_URL, &flawed),
        page_record(PAGE_URL, PAGE),
        image_record(IMAGE_URL),
    ]);
    assert_eq!(
        outcomes,
        vec![
            RecordOutcome::Rejected(RecordError::Extract(ExtractError {
                field: Field::Owner,
                flaw: Flaw::Select(SelectError::NotFound),
            })),
            RecordOutcome::MetadataUpdated,
            RecordOutcome::ExampleEmitted(expected_example()),
        ]
    );
}

#[test]
fn undecodable_image_is_rejected_before_anything_else() {
    let outcomes = run(&[
        page_record(PAGE_URL, PAGE),
        record("response", IMAGE_URL, answer("200 OK", b"no image")),
        record("response", VARIANT_URL, answer("200 OK", b"")),
        image_record(IMAGE_URL),
    ]);
    assert_eq!(
        outcomes,
        vec![
            RecordOutcome::MetadataUpdated,
            RecordOutcome::Rejected(RecordError::UndecodableImage),
            RecordOutcome::Rejected(RecordError::UndecodableImage),
            RecordOutcome::ExampleEmitted(expected_example()),
        ]
    );
}

#[test]
fn image_with_a_bad_address_is_rejected() {
    let mut store = CorrelationStore::new();
    assert_eq!(
        process_image("staticflickr.com/1.jpg", &tiny_jpeg(), &mut store),
        RecordOutcome::Rejected(RecordError::Url(UrlError::Unparsable))
    );
    assert_eq!(
        process_image("data:staticflickr.com/1.jpg", &tiny_jpeg(), &mut store),
        RecordOutcome::Rejected(RecordError::Url(UrlError::NoPath))
    );
    assert_eq!(
        run(&[image_record("staticflickr.com/1.jpg")]),
        vec![RecordOutcome::Rejected(RecordError::Url(UrlError::Unparsable))]
    );
}

#[test]
fn image_is_looked_up_under_its_address_as_written() {
    let mut store = CorrelationStore::new();
    store.insert(IMAGE_URL.to_string(), expected_metadata());
    assert_eq!(
        process_image("https://live.staticflickr.com:443/123_abc.jpg", &tiny_jpeg(), &mut store),
        RecordOutcome::Rejected(RecordError::CorrelationMiss)
    );
    assert_eq!(
        process_image(IMAGE_URL, &tiny_jpeg(), &mut store),
        RecordOutcome::ExampleEmitted(expected_example())
    );
    assert!(!store.contains(IMAGE_URL));
}

#[test]
fn page_is_stored_under_the_address_of_its_image() {
    let mut store = CorrelationStore::new();
    let body = answer("200 OK", PAGE.as_bytes());
    assert_eq!(
        process_page(&body, PAGE.as_bytes(), &mut store),
        RecordOutcome::MetadataUpdated
    );
    assert!(store.contains(IMAGE_URL));
    assert!(!store.contains(PAGE_URL));
    assert_eq!(store.take(IMAGE_URL), Some(expected_metadata()));
}

#[test]
fn example_of_the_run_is_written_as_features() {
    let mut outcomes = run(&[page_record(PAGE_URL, PAGE), image_record(IMAGE_URL)]);
    let example = match outcomes.pop() {
        Some(RecordOutcome::ExampleEmitted(example)) => example,
        other => panic!("{:?}", other),
    };
    let features = example.into_example();
    assert_eq!(features.len(), 12);
    assert_eq!(features[0].name, "comment_count");
    assert_eq!(features[11].name, "image");
}

#[test]
fn verdict_on_a_photo_page_goes_into_the_store() {
    let mut store = CorrelationStore::new();
    let verdict = Ok(PageVerdict::Metadata(expected_metadata()));
    assert_eq!(file_verdict(verdict, &mut store), RecordOutcome::MetadataUpdated);
    assert_eq!(store.take(IMAGE_URL), Some(expected_metadata()));
}

#[test]
fn other_verdicts_leave_the_store() {
    let mut store = CorrelationStore::new();
    store.insert(IMAGE_URL.to_string(), expected_metadata());
    assert_eq!(
        file_verdict(Ok(PageVerdict::Filtered(Marker::MapOverlay)), &mut store),
        RecordOutcome::Ignored(IgnoreReason::FilteredPage(Marker::MapOverlay))
    );
    let error = ExtractError { field: Field::License, flaw: Flaw::MissingAttribute };
    assert_eq!(
        file_verdict(Err(error), &mut store),
        RecordOutcome::Rejected(RecordError::Extract(error))
    );
    assert_eq!(store.take(IMAGE_URL), Some(expected_metadata()));
}

#[test]
fn correlate_takes_the_metadata_that_waits() {
    let mut store = CorrelationStore::new();
    store.insert("u".to_string(), expected_metadata());
    store.insert("v".to_string(), expected_metadata());
    let dimensions = Dimensions { width: 7, height: 9 };
    assert_eq!(
        correlate("w", b"xyz", dimensions, &mut store),
        RecordOutcome::Rejected(RecordError::CorrelationMiss)
    );
    assert_eq!(
        correlate("u", b"xyz", dimensions, &mut store),
        RecordOutcome::ExampleEmitted(ImageExample {
            metadata: expected_metadata(),
            file: b"xyz".to_vec(),
            width: 7,
            height: 9,
        })
    );
    assert_eq!(
        correlate("u", b"xyz", dimensions, &mut store),
        RecordOutcome::Rejected(RecordError::CorrelationMiss)
    );
    assert!(store.contains("v"));
}

#[test]
fn webp_without_a_key_frame_is_rejected_and_the_run_goes_on() {
    let inter = [
        b'R', b'I', b'F', b'F', 15, 0, 0, 0, b'W', b'E', b'B', b'P', b'V', b'P', b'8', b' ', 3, 0,
        0, 0, 1, 0, 0,
    ];
    let outcomes = run(&[
        page_record(PAGE_URL, PAGE),
        record("response", IMAGE_URL, answer("200 OK", &inter)),
        record("response", VARIANT_URL, answer("200 OK", &inter)),
        image_record(IMAGE_URL),
    ]);
    assert_eq!(
        outcomes,
        vec![
            RecordOutcome::MetadataUpdated,
            RecordOutcome::Rejected(RecordError::UndecodableImage),
            RecordOutcome::Rejected(RecordError::UndecodableImage),
            RecordOutcome::ExampleEmitted(expected_example()),
        ]
    );
}
