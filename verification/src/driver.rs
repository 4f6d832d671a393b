//! Handles the records of an archive one by one, in the order of the archive.
//!
//! A photo page leaves its metadata in the store; the image that arrives
//! later under the address named by the page takes the metadata out and
//! becomes an example. Whatever goes wrong with a record ends with that record.

use crate::assemble::{
    assemble_with, decode_dimensions, decoded_dimensions, example_of, DecodeError,
};
use crate::canonical::{canonical_of, is_canonical, UrlError};
use crate::envelope::{envelope_of, parse_envelope, EnvelopeError};
use crate::metadata::{Dimensions, ImageExample, ImageExampleView, ImageMetadataView};
use crate::page::{
    extract, marker_of, page_verdict, ExtractError, Marker, PageVerdict, PageVerdictView,
};
use crate::store::CorrelationStore;
use crate::text::{
    bytes_equal, bytes_start_with, chars_of, contains, first_named, has_infix, has_prefix,
    starts_with, text_of,
};
use vstd::prelude::*;
use vstd::slice::slice_subrange;
use vstd::string::StringSliceAdditionalSpecFns;
use vstd::utf8::{decode_utf8, valid_utf8};

verus! {

/// The header that holds the type of a record.
pub const TYPE_HEADER: &'static str = "WARC-Type";

/// The header that holds the address a record was captured from.
pub const TARGET_HEADER: &'static str = "WARC-Target-URI";

/// The type of the records that hold what a server answered.
pub const RESPONSE_TYPE: &'static str = "response";

/// What the address of a photo page begins with.
pub const PAGE_PREFIX: &'static str = "https://www.flickr.com/photos/";

/// What the address of an image holds: the host that serves the images.
pub const ASSET_HOST: &'static str = "staticflickr.com";

/// What the address of the small picture of a member holds.
pub const ICON_MARK: &'static str = "buddyicons";

/// What the answer to a successful request begins with.
pub const SUCCESS_STATUS: &'static str = "HTTP/1.1 200";

/// One header of a record.
#[derive(Debug, PartialEq, Eq)]
pub struct Header {
    pub name: String,
    pub value: Vec<u8>,
}

/// One record of an archive: its headers, in order, and its body.
#[derive(Debug, PartialEq, Eq)]
pub struct Record {
    pub headers: Vec<Header>,
    pub body: Vec<u8>,
}

/// The mathematical value of a `Record`.
pub ghost struct RecordView {
    pub headers: Seq<(Seq<char>, Seq<u8>)>,
    pub body: Seq<u8>,
}

impl View for Record {
    type V = RecordView;

    open spec fn view(&self) -> RecordView {
        RecordView {
            headers: self.headers@.map_values(|header: Header| (header.name@, header.value@)),
            body: self.body@,
        }
    }
}

/// The kinds of record.
#[derive(Clone, Copy, Debug, PartialEq, Eq, Structural)]
pub enum RecordKind {
    /// What a server answered.
    Response,
    /// Anything else.
    Other,
}

/// What the address of a record points at.
#[derive(Clone, Copy, Debug, PartialEq, Eq, Structural)]
pub enum TargetCategory {
    /// A photo page.
    Page,
    /// An image.
    ImageAsset,
    /// The small picture of a member.
    IconAsset,
    /// Nothing of interest.
    Uncategorized,
}

/// Why a record was passed over on purpose.
#[derive(Clone, Copy, Debug, PartialEq, Eq, Structural)]
pub enum IgnoreReason {
    /// It is no response.
    NotResponse,
    /// Its page shows no photo.
    FilteredPage(Marker),
    /// It holds the small picture of a member.
    IconAsset,
    /// It holds a resized variant of an image.
    DerivedAsset,
    /// Its address is neither a photo page nor an image.
    Uncategorized,
}

/// Why a record failed.
#[derive(Clone, Copy, Debug, PartialEq, Eq, Structural)]
pub enum RecordError {
    /// A response without the header of its address.
    MissingTarget,
    /// The address is not UTF-8.
    TargetNotText,
    /// The body has no usable HTTP envelope.
    Envelope(EnvelopeError),
    /// The payload of a page is not UTF-8.
    PageNotText,
    /// The request for a page did not succeed.
    PageNotSuccessful,
    /// A required field of a page could not be read.
    Extract(ExtractError),
    /// The image could not be decoded.
    UndecodableImage,
    /// The address of an image has no file name to judge.
    Url(UrlError),
    /// No metadata waits for the image.
    CorrelationMiss,
}

/// What became of a record.
#[derive(Debug, PartialEq, Eq)]
pub enum RecordOutcome {
    /// Passed over on purpose.
    Ignored(IgnoreReason),
    /// A photo page whose metadata went into the store.
    MetadataUpdated,
    /// An image that found its metadata: the example to write out.
    ExampleEmitted(ImageExample),
    /// Failed; the records after it are not affected.
    Rejected(RecordError),
}

/// The mathematical value of a `RecordOutcome`.
pub ghost enum RecordOutcomeView {
    Ignored(IgnoreReason),
    MetadataUpdated,
    ExampleEmitted(ImageExampleView),
    Rejected(RecordError),
}

impl View for RecordOutcome {
    type V = RecordOutcomeView;

    open spec fn view(&self) -> RecordOutcomeView {
        match self {
            RecordOutcome::Ignored(reason) => RecordOutcomeView::Ignored(*reason),
            RecordOutcome::MetadataUpdated => RecordOutcomeView::MetadataUpdated,
            RecordOutcome::ExampleEmitted(example) => RecordOutcomeView::ExampleEmitted(example@),
            RecordOutcome::Rejected(error) => RecordOutcomeView::Rejected(*error),
        }
    }
}

/// What the store holds: metadata by the address of its image.
pub type Pending = Map<Seq<char>, ImageMetadataView>;

/// What handling a record leads to: its outcome and the store afterwards.
pub ghost struct Step {
    pub outcome: RecordOutcomeView,
    pub store: Pending,
}

/// The kind of a record: a response where its type header says so.
pub open spec fn kind_of(record: RecordView) -> RecordKind {
    if first_named(record.headers, TYPE_HEADER@) == Some(RESPONSE_TYPE.spec_bytes()) {
        RecordKind::Response
    } else {
        RecordKind::Other
    }
}

/// The address a record was captured from.
pub open spec fn target_of(record: RecordView) -> Result<Seq<char>, RecordError> {
    match first_named(record.headers, TARGET_HEADER@) {
        None => Err(RecordError::MissingTarget),
        Some(bytes) => if valid_utf8(bytes) {
            Ok(decode_utf8(bytes))
        } else {
            Err(RecordError::TargetNotText)
        },
    }
}

/// What an address points at. A photo page is told by how the address
/// begins; an image by the host that the address holds, unless it also
/// holds the mark of an icon.
pub open spec fn category_of(target: Seq<char>) -> TargetCategory {
    if has_prefix(target, PAGE_PREFIX@) {
        TargetCategory::Page
    } else if has_infix(target, ASSET_HOST@) {
        if has_infix(target, ICON_MARK@) {
            TargetCategory::IconAsset
        } else {
            TargetCategory::ImageAsset
        }
    } else {
        TargetCategory::Uncategorized
    }
}

/// What the verdict on a page leads to: the metadata of a photo page goes
/// into the store under the address of its image, and nothing else changes
/// the store.
pub open spec fn filed(store: Pending, verdict: Result<PageVerdictView, ExtractError>) -> Step {
    match verdict {
        Err(error) => Step {
            outcome: RecordOutcomeView::Rejected(RecordError::Extract(error)),
            store,
        },
        Ok(PageVerdictView::Filtered(marker)) => Step {
            outcome: RecordOutcomeView::Ignored(IgnoreReason::FilteredPage(marker)),
            store,
        },
        Ok(PageVerdictView::Metadata(metadata)) => Step {
            outcome: RecordOutcomeView::MetadataUpdated,
            store: store.insert(metadata.img_src, metadata),
        },
    }
}

/// What a page record leads to. `body` is the whole body of the record,
/// `payload` the part behind the HTTP envelope.
pub open spec fn page_step(store: Pending, body: Seq<u8>, payload: Seq<u8>) -> Step {
    if !valid_utf8(payload) {
        Step { outcome: RecordOutcomeView::Rejected(RecordError::PageNotText), store }
    } else if !has_prefix(body, SUCCESS_STATUS.spec_bytes()) {
        Step { outcome: RecordOutcomeView::Rejected(RecordError::PageNotSuccessful), store }
    } else {
        filed(store, page_verdict(decode_utf8(payload)))
    }
}

/// What an original image leads to: it takes the metadata that waits under
/// its address out of the store and becomes an example, or it is a
/// correlation miss.
pub open spec fn correlated(
    store: Pending,
    target: Seq<char>,
    image: Seq<u8>,
    dimensions: Dimensions,
) -> Step {
    if store.contains_key(target) {
        Step {
            outcome: RecordOutcomeView::ExampleEmitted(
                example_of(store[target], image, dimensions),
            ),
            store: store.remove(target),
        }
    } else {
        Step { outcome: RecordOutcomeView::Rejected(RecordError::CorrelationMiss), store }
    }
}

/// What an image record leads to. The image is decoded first, and only an
/// original is looked up.
pub open spec fn image_step(store: Pending, target: Seq<char>, payload: Seq<u8>) -> Step {
    match decoded_dimensions(payload) {
        None => Step { outcome: RecordOutcomeView::Rejected(RecordError::UndecodableImage), store },
        Some(dimensions) => match canonical_of(target) {
            Err(error) => Step {
                outcome: RecordOutcomeView::Rejected(RecordError::Url(error)),
                store,
            },
            Ok(false) => Step {
                outcome: RecordOutcomeView::Ignored(IgnoreReason::DerivedAsset),
                store,
            },
            Ok(true) => correlated(store, target, payload, dimensions),
        },
    }
}

/// What handling `record` leads to when the store holds `store`.
pub open spec fn step(store: Pending, record: RecordView) -> Step {
    if kind_of(record) != RecordKind::Response {
        Step { outcome: RecordOutcomeView::Ignored(IgnoreReason::NotResponse), store }
    } else {
        match target_of(record) {
            Err(error) => Step { outcome: RecordOutcomeView::Rejected(error), store },
            Ok(target) => match envelope_of(record.body) {
                Err(error) => Step {
                    outcome: RecordOutcomeView::Rejected(RecordError::Envelope(error)),
                    store,
                },
                Ok(offset) => {
                    let payload = record.body.skip(offset as int);
                    match category_of(target) {
                        TargetCategory::Page => page_step(store, record.body, payload),
                        TargetCategory::ImageAsset => image_step(store, target, payload),
                        TargetCategory::IconAsset => Step {
                            outcome: RecordOutcomeView::Ignored(IgnoreReason::IconAsset),
                            store,
                        },
                        TargetCategory::Uncategorized => Step {
                            outcome: RecordOutcomeView::Ignored(IgnoreReason::Uncategorized),
                            store,
                        },
                    }
                },
            },
        }
    }
}

impl Record {
    /// The value of the first header named `name`, if there is one.
    pub fn header(&self, name: &str) -> (value: Option<&Vec<u8>>)
        ensures
            match value {
                Some(bytes) => first_named(self@.headers, name@) == Some(bytes@),
                None => first_named(self@.headers, name@) == None::<Seq<u8>>,
            },
    {
        let wanted = name.to_owned();
        let mut at: usize = 0;
        assert(self@.headers.skip(0) =~= self@.headers);
        while at < self.headers.len()
            invariant
                at <= self.headers.len(),
                wanted@ == name@,
                first_named(self@.headers, name@) == first_named(
                    self@.headers.skip(at as int),
                    name@,
                ),
            decreases self.headers.len() - at,
        {
            assert(self@.headers.skip(at as int).drop_first() =~= self@.headers.skip(at + 1));
            if self.headers[at].name == wanted {
                return Some(&self.headers[at].value);
            }
            at += 1;
        }
        None
    }

    /// The kind of the record.
    pub fn kind(&self) -> (kind: RecordKind)
        ensures
            kind == kind_of(self@),
    {
        match self.header(TYPE_HEADER) {
            Some(value) => if bytes_equal(value.as_slice(), RESPONSE_TYPE.as_bytes()) {
                RecordKind::Response
            } else {
                RecordKind::Other
            },
            None => RecordKind::Other,
        }
    }

    /// The address the record was captured from.
    pub fn target(&self) -> (target: Result<&str, RecordError>)
        ensures
            match target {
                Ok(text) => target_of(self@) == Ok::<Seq<char>, RecordError>(text@),
                Err(error) => target_of(self@) == Err::<Seq<char>, RecordError>(error),
            },
    {
        match self.header(TARGET_HEADER) {
            None => Err(RecordError::MissingTarget),
            Some(value) => match text_of(value.as_slice()) {
                Some(text) => {
                    proof {
                        vstd::utf8::encode_utf8_decode_utf8(text@);
                    }
                    Ok(text)
                },
                None => Err(RecordError::TargetNotText),
            },
        }
    }
}

/// Tells what an address points at.
pub fn classify_target(target: &str) -> (category: TargetCategory)
    ensures
        category == category_of(target@),
{
    let chars = chars_of(target);
    let page_prefix = chars_of(PAGE_PREFIX);
    if starts_with(chars.as_slice(), page_prefix.as_slice()) {
        return TargetCategory::Page;
    }
    let asset_host = chars_of(ASSET_HOST);
    if !contains(chars.as_slice(), asset_host.as_slice()) {
        return TargetCategory::Uncategorized;
    }
    let icon_mark = chars_of(ICON_MARK);
    if contains(chars.as_slice(), icon_mark.as_slice()) {
        TargetCategory::IconAsset
    } else {
        TargetCategory::ImageAsset
    }
}

/// Acts on the verdict on a page: puts the metadata of a photo page into
/// the store under the address of its image.
pub fn file_verdict(
    verdict: Result<PageVerdict, ExtractError>,
    store: &mut CorrelationStore,
) -> (outcome: RecordOutcome)
    ensures
        match verdict {
            Ok(page) => outcome@ == filed(old(store)@, Ok(page@)).outcome && final(store)@
                == filed(old(store)@, Ok(page@)).store,
            Err(error) => outcome@ == filed(old(store)@, Err(error)).outcome && final(store)@
                == filed(old(store)@, Err(error)).store,
        },
{
    match verdict {
        Err(error) => RecordOutcome::Rejected(RecordError::Extract(error)),
        Ok(PageVerdict::Filtered(marker)) => RecordOutcome::Ignored(
            IgnoreReason::FilteredPage(marker),
        ),
        Ok(PageVerdict::Metadata(metadata)) => {
            store.insert(metadata.img_src.clone(), metadata);
            RecordOutcome::MetadataUpdated
        },
    }
}

/// Handles the record of a photo page: reads its metadata and puts it into
/// the store under the address of the image.
pub fn process_page(body: &[u8], payload: &[u8], store: &mut CorrelationStore) -> (outcome:
    RecordOutcome)
    ensures
        outcome@ == page_step(old(store)@, body@, payload@).outcome,
        final(store)@ == page_step(old(store)@, body@, payload@).store,
{
    let html = match text_of(payload) {
        Some(text) => text,
        None => return RecordOutcome::Rejected(RecordError::PageNotText),
    };
    proof {
        vstd::utf8::encode_utf8_decode_utf8(html@);
    }
    if !bytes_start_with(body, SUCCESS_STATUS.as_bytes()) {
        return RecordOutcome::Rejected(RecordError::PageNotSuccessful);
    }
    file_verdict(extract(html), store)
}

/// Hands an original image of known dimensions to the metadata that waits
/// under its address.
pub fn correlate(
    target: &str,
    image: &[u8],
    dimensions: Dimensions,
    store: &mut CorrelationStore,
) -> (outcome: RecordOutcome)
    ensures
        outcome@ == correlated(old(store)@, target@, image@, dimensions).outcome,
        final(store)@ == correlated(old(store)@, target@, image@, dimensions).store,
{
    match store.take(target) {
        Some(metadata) => RecordOutcome::ExampleEmitted(assemble_with(metadata, image, dimensions)),
        None => RecordOutcome::Rejected(RecordError::CorrelationMiss),
    }
}

/// Handles the record of an image: an original takes its metadata out of
/// the store and becomes an example.
pub fn process_image(target: &str, payload: &[u8], store: &mut CorrelationStore) -> (outcome:
    RecordOutcome)
    ensures
        outcome@ == image_step(old(store)@, target@, payload@).outcome,
        final(store)@ == image_step(old(store)@, target@, payload@).store,
{
    let dimensions = match decode_dimensions(payload) {
        Ok(dimensions) => dimensions,
        Err(DecodeError) => return RecordOutcome::Rejected(RecordError::UndecodableImage),
    };
    match is_canonical(target) {
        Err(error) => RecordOutcome::Rejected(RecordError::Url(error)),
        Ok(false) => RecordOutcome::Ignored(IgnoreReason::DerivedAsset),
        Ok(true) => correlate(target, payload, dimensions, store),
    }
}

/// Handles one record: tells what it is, and lets a photo page update the
/// store or an image take from it.
pub fn parse_record(record: &Record, store: &mut CorrelationStore) -> (outcome: RecordOutcome)
    ensures
        outcome@ == step(old(store)@, record@).outcome,
        final(store)@ == step(old(store)@, record@).store,
{
    match record.kind() {
        RecordKind::Other => return RecordOutcome::Ignored(IgnoreReason::NotResponse),
        RecordKind::Response => {},
    }
    let target = match record.target() {
        Ok(text) => text,
        Err(error) => return RecordOutcome::Rejected(error),
    };
    let body = record.body.as_slice();
    let offset = match parse_envelope(body) {
        Ok(offset) => offset,
        Err(error) => return RecordOutcome::Rejected(RecordError::Envelope(error)),
    };
    let payload = slice_subrange(body, offset, body.len());
    match classify_target(target) {
        TargetCategory::Page => process_page(body, payload, store),
        TargetCategory::ImageAsset => process_image(target, payload, store),
        TargetCategory::IconAsset => RecordOutcome::Ignored(IgnoreReason::IconAsset),
        TargetCategory::Uncategorized => RecordOutcome::Ignored(IgnoreReason::Uncategorized),
    }
}

/// `record` is a response that holds an original image: it is captured
/// from `target`, the address of an image, and its payload `payload` decodes
/// to `dimensions`.
pub open spec fn holds_original(
    record: RecordView,
    target: Seq<char>,
    payload: Seq<u8>,
    dimensions: Dimensions,
) -> bool {
    &&& kind_of(record) == RecordKind::Response
    &&& target_of(record) == Ok::<Seq<char>, RecordError>(target)
    &&& envelope_of(record.body) matches Ok(offset) && payload == record.body.skip(offset as int)
    &&& category_of(target) == TargetCategory::ImageAsset
    &&& decoded_dimensions(payload) == Some(dimensions)
    &&& canonical_of(target) == Ok::<bool, UrlError>(true)
}

/// Correlation goes by order. When metadata was put into the store under the
/// address of an image, the record of the image becomes an example with that
/// metadata and takes it out of the store. When nothing waits under the
/// address, the record is rejected as a correlation miss and the store stays
/// as it is.
pub proof fn correlation_goes_by_order(
    store: Pending,
    metadata: ImageMetadataView,
    record: RecordView,
    target: Seq<char>,
    payload: Seq<u8>,
    dimensions: Dimensions,
)
    requires
        holds_original(record, target, payload, dimensions),
    ensures
        step(store.insert(target, metadata), record).outcome == RecordOutcomeView::ExampleEmitted(
            example_of(metadata, payload, dimensions),
        ),
        step(store.insert(target, metadata), record).store == store.remove(target),
        !store.contains_key(target) ==> step(store, record) == (Step {
            outcome: RecordOutcomeView::Rejected(RecordError::CorrelationMiss),
            store,
        }),
{
}

/// `record` is the successful answer for a photo page that says `metadata`
/// of its image.
pub open spec fn holds_page(record: RecordView, metadata: ImageMetadataView) -> bool {
    &&& kind_of(record) == RecordKind::Response
    &&& target_of(record) matches Ok(target) && category_of(target) == TargetCategory::Page
    &&& envelope_of(record.body) matches Ok(offset) && {
        let payload = record.body.skip(offset as int);
        &&& valid_utf8(payload)
        &&& page_verdict(decode_utf8(payload)) == Ok::<PageVerdictView, ExtractError>(
            PageVerdictView::Metadata(metadata),
        )
    }
    &&& has_prefix(record.body, SUCCESS_STATUS.spec_bytes())
}

/// A photo page followed by the original image that it names gives one
/// example, which carries the metadata of the page, and leaves nothing
/// behind under the address of the image. Records that are ignored or
/// rejected in between do not change this, as they leave the store alone.
pub proof fn page_then_image_emits(
    store: Pending,
    page: RecordView,
    metadata: ImageMetadataView,
    image: RecordView,
    payload: Seq<u8>,
    dimensions: Dimensions,
)
    requires
        holds_page(page, metadata),
        holds_original(image, metadata.img_src, payload, dimensions),
    ensures
        step(store, page) == (Step {
            outcome: RecordOutcomeView::MetadataUpdated,
            store: store.insert(metadata.img_src, metadata),
        }),
        step(step(store, page).store, image) == (Step {
            outcome: RecordOutcomeView::ExampleEmitted(example_of(metadata, payload, dimensions)),
            store: store.remove(metadata.img_src),
        }),
{
    correlation_goes_by_order(store, metadata, image, metadata.img_src, payload, dimensions);
}

/// The record of a resized variant is ignored and leaves the store alone,
/// whatever waits there.
pub proof fn variant_is_ignored(
    store: Pending,
    record: RecordView,
    target: Seq<char>,
    payload: Seq<u8>,
)
    requires
        kind_of(record) == RecordKind::Response,
        target_of(record) == Ok::<Seq<char>, RecordError>(target),
        envelope_of(record.body) matches Ok(offset) && payload == record.body.skip(offset as int),
        category_of(target) == TargetCategory::ImageAsset,
        decoded_dimensions(payload) is Some,
        canonical_of(target) == Ok::<bool, UrlError>(false),
    ensures
        step(store, record) == (Step {
            outcome: RecordOutcomeView::Ignored(IgnoreReason::DerivedAsset),
            store,
        }),
{
}

/// Metadata is used once: the record that became an example is a
/// correlation miss when it comes again.
pub proof fn example_is_emitted_once(store: Pending, record: RecordView)
    requires
        step(store, record).outcome is ExampleEmitted,
    ensures
        step(step(store, record).store, record).outcome == RecordOutcomeView::Rejected(
            RecordError::CorrelationMiss,
        ),
{
}

/// Only a photo page that was read and an image that became an example
/// change the store: a record that is ignored or rejected leaves it as it is.
pub proof fn failures_leave_the_store(store: Pending, record: RecordView)
    requires
        step(store, record).outcome is Ignored || step(store, record).outcome is Rejected,
    ensures
        step(store, record).store == store,
{
}

/// A photo page never becomes an example, whatever it holds.
pub proof fn pages_emit_nothing(store: Pending, body: Seq<u8>, payload: Seq<u8>)
    ensures
        !(page_step(store, body, payload).outcome is ExampleEmitted),
{
}

/// A successful answer whose page carries a marker is ignored and changes
/// nothing, whether or not the fields of a photo page are there.
pub proof fn marked_page_is_ignored(
    store: Pending,
    body: Seq<u8>,
    payload: Seq<u8>,
    marker: Marker,
)
    requires
        valid_utf8(payload),
        has_prefix(body, SUCCESS_STATUS.spec_bytes()),
        marker_of(decode_utf8(payload)) == Some(marker),
    ensures
        page_step(store, body, payload) == (Step {
            outcome: RecordOutcomeView::Ignored(IgnoreReason::FilteredPage(marker)),
            store,
        }),
{
}

} // verus!
