//! Reads the metadata of an image off its photo page.
//!
//! A page is queried with CSS selectors. Pages that show no photo (an age or
//! region notice, a map, a list of sizes) are told apart first; of the others
//! every required field must be found in exactly one element.

use crate::cleaning::{
    clean_description, count_of, kept_description, kept_title, parse_count, retain_title,
};
use crate::metadata::{ImageMetadata, ImageMetadataView};
use crate::text::texts;
use vstd::prelude::*;
use vstd::string::StringExecFns;

verus! {

/// Marks the notice shown in place of a restricted photo.
pub const RESTRICTED_MARKER: &'static str = ".restricted-interstitial-message";

/// Marks the map view of a photo.
pub const MAP_MARKER: &'static str = "#f_div_osm_cc";

/// Marks the list of the sizes of a photo.
pub const ALL_SIZES_MARKER: &'static str = "#all-sizes-header";

/// Selects the link to the license.
pub const LICENSE_LINK: &'static str = ".photo-license-url";

/// Selects the label of the number of comments.
pub const COMMENT_COUNT_LABEL: &'static str = ".comment-count-label";

/// Selects the label of the number of favourites.
pub const FAVE_COUNT_LABEL: &'static str = ".fave-count-label";

/// Selects the label of the number of views.
pub const VIEW_COUNT_LABEL: &'static str = ".view-count-label";

/// Selects the meta tag of the description.
pub const DESCRIPTION_META: &'static str = "meta[property=\"og:description\"]";

/// Selects the meta tag of the title.
pub const TITLE_META: &'static str = "meta[property=\"og:title\"]";

/// Selects the meta tag of the keywords.
pub const KEYWORDS_META: &'static str = "meta[name=\"keywords\"]";

/// Selects the name of the owner.
pub const OWNER_NAME: &'static str = ".owner-name";

/// Selects the photo itself.
pub const MAIN_PHOTO: &'static str = ".main-photo";

/// The attribute that holds the target of a link.
pub const HREF: &'static str = "href";

/// The attribute that holds the value of a meta tag.
pub const CONTENT: &'static str = "content";

/// The attribute that holds the address of an image.
pub const SRC: &'static str = "src";

/// The scheme put in front of the scheme-relative address of the photo.
pub const IMAGE_SCHEME: &'static str = "https:";

/// One attribute of an element: its qualified name, which is a prefix, a
/// namespace and a local name, and its value. An attribute written in HTML
/// has neither prefix nor namespace; one of an embedded SVG or MathML
/// element may have both.
#[derive(Debug, PartialEq, Eq)]
pub struct Attribute {
    pub prefix: Option<String>,
    pub namespace: String,
    pub name: String,
    pub value: String,
}

/// The mathematical value of an `Attribute`.
pub ghost struct AttributeView {
    pub prefix: Option<Seq<char>>,
    pub namespace: Seq<char>,
    pub name: Seq<char>,
    pub value: Seq<char>,
}

impl View for Attribute {
    type V = AttributeView;

    open spec fn view(&self) -> AttributeView {
        AttributeView {
            prefix: match self.prefix {
                Some(prefix) => Some(prefix@),
                None => None,
            },
            namespace: self.namespace@,
            name: self.name@,
            value: self.value@,
        }
    }
}

/// What is read of one element of a page: its attributes, and the text nodes
/// below it.
#[derive(Debug, PartialEq, Eq)]
pub struct PageElement {
    pub attributes: Vec<Attribute>,
    pub text: Vec<String>,
}

/// The mathematical value of a `PageElement`.
pub ghost struct PageElementView {
    pub attributes: Seq<AttributeView>,
    pub text: Seq<Seq<char>>,
}

impl View for PageElement {
    type V = PageElementView;

    open spec fn view(&self) -> PageElementView {
        PageElementView {
            attributes: self.attributes@.map_values(|attribute: Attribute| attribute@),
            text: texts(self.text@),
        }
    }
}

/// The mathematical value of a list of elements.
pub open spec fn views(elements: Seq<PageElement>) -> Seq<PageElementView> {
    elements.map_values(|element: PageElement| element@)
}

/// The mathematical value of the matches of a selection.
pub open spec fn element_views(found: Option<Vec<PageElement>>) -> Option<Seq<PageElementView>> {
    match found {
        Some(elements) => Some(views(elements@)),
        None => None,
    }
}

/// The elements of the document `html` that match `selector`, in the order
/// in which `Html::select` yields them, each with its attributes in the order
/// in which the element keeps them and with the text nodes that
/// `ElementRef::text` yields below it. `None` where `selector` is no valid
/// selector. This is what `scraper::Html::parse_document`,
/// `scraper::Selector::parse`, `Html::select`, the field `attrs` of
/// `scraper::node::Element` and `ElementRef::text` compute.
pub uninterp spec fn selected(html: Seq<char>, selector: Seq<char>) -> Option<
    Seq<PageElementView>,
>;

/// Parses `html` with `scraper::Html::parse_document` and `selector` with
/// `scraper::Selector::parse`, runs `Html::select`, and copies out of each
/// match the qualified name and the value of every attribute in the field
/// `attrs` of its `Element`, and the text nodes that `ElementRef::text`
/// walks. The contract only names the result; an invalid selector gives
/// `None`.
#[verifier::external_body]
fn select(html: &str, selector: &str) -> (found: Option<Vec<PageElement>>)
    ensures
        element_views(found) == selected(html@, selector@),
{
    let selector = scraper::Selector::parse(selector).ok()?;
    let document = scraper::Html::parse_document(html);
    let copy = |element: scraper::ElementRef| PageElement {
        attributes: element.value().attrs.iter().map(|(name, value)| Attribute {
            prefix: name.prefix.as_ref().map(|prefix| prefix.to_string()),
            namespace: name.ns.to_string(),
            name: name.local.to_string(),
            value: value.to_string(),
        }).collect(),
        text: element.text().map(|node| node.to_string()).collect(),
    };
    Some(document.select(&selector).map(copy).collect())
}

/// Why the matches of a selector are not exactly one element.
#[derive(Clone, Copy, Debug, PartialEq, Eq, Structural)]
pub enum SelectError {
    /// No element matches.
    NotFound,
    /// More than one element matches.
    Ambiguous,
}

/// What is wrong with a field of a page.
#[derive(Clone, Copy, Debug, PartialEq, Eq, Structural)]
pub enum Flaw {
    /// Its selector is not valid CSS.
    InvalidSelector,
    /// Its selector does not match exactly one element.
    Select(SelectError),
    /// Its element lacks the attribute that holds the value.
    MissingAttribute,
    /// Its element holds no text.
    MissingText,
    /// Its text is no unsigned number.
    MalformedNumber,
}

/// The required fields of a page, in the order in which they are read.
#[derive(Clone, Copy, Debug, PartialEq, Eq, Structural)]
pub enum Field {
    License,
    CommentCount,
    FaveCount,
    ViewCount,
    Owner,
    MainPhoto,
}

/// The first required field of a page that could not be read, and why.
#[derive(Clone, Copy, Debug, PartialEq, Eq, Structural)]
pub struct ExtractError {
    pub field: Field,
    pub flaw: Flaw,
}

/// The kinds of page that show no photo.
#[derive(Clone, Copy, Debug, PartialEq, Eq, Structural)]
pub enum Marker {
    /// A notice that the photo is restricted by age or region.
    Restricted,
    /// The map view.
    MapOverlay,
    /// The list of sizes.
    AllSizes,
}

/// What a page turned out to be.
#[derive(Debug, PartialEq, Eq)]
pub enum PageVerdict {
    /// A page without a photo, left out on purpose.
    Filtered(Marker),
    /// A photo page, with what it says of its image.
    Metadata(ImageMetadata),
}

/// The mathematical value of a `PageVerdict`.
pub ghost enum PageVerdictView {
    Filtered(Marker),
    Metadata(ImageMetadataView),
}

impl View for PageVerdict {
    type V = PageVerdictView;

    open spec fn view(&self) -> PageVerdictView {
        match self {
            PageVerdict::Filtered(marker) => PageVerdictView::Filtered(*marker),
            PageVerdict::Metadata(metadata) => PageVerdictView::Metadata(metadata@),
        }
    }
}

/// The single match among the matches of a selector: an error where there
/// is none or more than one.
pub open spec fn the_one(matches: Seq<PageElementView>) -> Result<PageElementView, SelectError> {
    if matches.len() == 0 {
        Err(SelectError::NotFound)
    } else if matches.len() == 1 {
        Ok(matches[0])
    } else {
        Err(SelectError::Ambiguous)
    }
}

/// The one element of a field: what the selection of the field holds where
/// the selector is valid and matches exactly once.
pub open spec fn element_of(found: Option<Seq<PageElementView>>) -> Result<PageElementView, Flaw> {
    match found {
        None => Err(Flaw::InvalidSelector),
        Some(matches) => match the_one(matches) {
            Ok(element) => Ok(element),
            Err(error) => Err(Flaw::Select(error)),
        },
    }
}

/// The value of the attribute named `name` that has neither prefix nor
/// namespace, if there is one: that of the first such attribute.
pub open spec fn plain_attribute(attributes: Seq<AttributeView>, name: Seq<char>) -> Option<
    Seq<char>,
>
    decreases attributes.len(),
{
    if attributes.len() == 0 {
        None
    } else if attributes[0].prefix is None && attributes[0].namespace.len() == 0
        && attributes[0].name == name {
        Some(attributes[0].value)
    } else {
        plain_attribute(attributes.drop_first(), name)
    }
}

/// The value of a field that is held in the attribute `name` of its one
/// element.
pub open spec fn attribute_of(found: Option<Seq<PageElementView>>, name: Seq<char>) -> Result<
    Seq<char>,
    Flaw,
> {
    match element_of(found) {
        Err(flaw) => Err(flaw),
        Ok(element) => match plain_attribute(element.attributes, name) {
            Some(value) => Ok(value),
            None => Err(Flaw::MissingAttribute),
        },
    }
}

/// The value of a field that is the first text node of its one element.
pub open spec fn first_text_of(found: Option<Seq<PageElementView>>) -> Result<Seq<char>, Flaw> {
    match element_of(found) {
        Err(flaw) => Err(flaw),
        Ok(element) => if element.text.len() == 0 {
            Err(Flaw::MissingText)
        } else {
            Ok(element.text[0])
        },
    }
}

/// The value of a count: the number that the first text node of its one
/// element shows.
pub open spec fn count_field_of(found: Option<Seq<PageElementView>>) -> Result<u32, Flaw> {
    match first_text_of(found) {
        Err(flaw) => Err(flaw),
        Ok(label) => match count_of(label) {
            Some(count) => Ok(count),
            None => Err(Flaw::MalformedNumber),
        },
    }
}

/// The value of a meta tag, where exactly one such tag is there and holds one.
pub open spec fn meta_of(found: Option<Seq<PageElementView>>) -> Option<Seq<char>> {
    match attribute_of(found, CONTENT@) {
        Ok(value) => Some(value),
        Err(_) => None,
    }
}

/// The value of a meta tag, or the empty text where `meta_of` finds none.
pub open spec fn meta_or_empty(found: Option<Seq<PageElementView>>) -> Seq<char> {
    match meta_of(found) {
        Some(value) => value,
        None => Seq::empty(),
    }
}

/// A selection of marker elements is not empty.
pub open spec fn is_marked(found: Option<Seq<PageElementView>>) -> bool {
    found matches Some(matches) && matches.len() > 0
}

/// The marker that a page carries, if any: the first of the three, in the
/// order in which they are looked for.
pub open spec fn marker_of(html: Seq<char>) -> Option<Marker> {
    if is_marked(selected(html, RESTRICTED_MARKER@)) {
        Some(Marker::Restricted)
    } else if is_marked(selected(html, MAP_MARKER@)) {
        Some(Marker::MapOverlay)
    } else if is_marked(selected(html, ALL_SIZES_MARKER@)) {
        Some(Marker::AllSizes)
    } else {
        None
    }
}

/// The fields of a photo page as they stand in the page.
#[derive(Debug, PartialEq, Eq)]
pub struct PageFields {
    pub license: String,
    pub comment_count: u32,
    pub fave_count: u32,
    pub view_count: u32,
    pub description: String,
    pub title: String,
    pub tags: String,
    pub owner: String,
    pub main_photo: String,
}

/// The mathematical value of a `PageFields`.
pub ghost struct PageFieldsView {
    pub license: Seq<char>,
    pub comment_count: nat,
    pub fave_count: nat,
    pub view_count: nat,
    pub description: Seq<char>,
    pub title: Seq<char>,
    pub tags: Seq<char>,
    pub owner: Seq<char>,
    pub main_photo: Seq<char>,
}

impl View for PageFields {
    type V = PageFieldsView;

    open spec fn view(&self) -> PageFieldsView {
        PageFieldsView {
            license: self.license@,
            comment_count: self.comment_count as nat,
            fave_count: self.fave_count as nat,
            view_count: self.view_count as nat,
            description: self.description@,
            title: self.title@,
            tags: self.tags@,
            owner: self.owner@,
            main_photo: self.main_photo@,
        }
    }
}

/// The fields of the page `html`, each read from its own selection, or the
/// first required field that is flawed. A meta tag that is not there gives
/// the empty text.
pub open spec fn fields_of(html: Seq<char>) -> Result<PageFieldsView, ExtractError> {
    let license = attribute_of(selected(html, LICENSE_LINK@), HREF@);
    let comment_count = count_field_of(selected(html, COMMENT_COUNT_LABEL@));
    let fave_count = count_field_of(selected(html, FAVE_COUNT_LABEL@));
    let view_count = count_field_of(selected(html, VIEW_COUNT_LABEL@));
    let owner = first_text_of(selected(html, OWNER_NAME@));
    let main_photo = attribute_of(selected(html, MAIN_PHOTO@), SRC@);
    if license is Err {
        Err(ExtractError { field: Field::License, flaw: license->Err_0 })
    } else if comment_count is Err {
        Err(ExtractError { field: Field::CommentCount, flaw: comment_count->Err_0 })
    } else if fave_count is Err {
        Err(ExtractError { field: Field::FaveCount, flaw: fave_count->Err_0 })
    } else if view_count is Err {
        Err(ExtractError { field: Field::ViewCount, flaw: view_count->Err_0 })
    } else if owner is Err {
        Err(ExtractError { field: Field::Owner, flaw: owner->Err_0 })
    } else if main_photo is Err {
        Err(ExtractError { field: Field::MainPhoto, flaw: main_photo->Err_0 })
    } else {
        Ok(
            PageFieldsView {
                license: license->Ok_0,
                comment_count: comment_count->Ok_0 as nat,
                fave_count: fave_count->Ok_0 as nat,
                view_count: view_count->Ok_0 as nat,
                description: meta_or_empty(selected(html, DESCRIPTION_META@)),
                title: meta_or_empty(selected(html, TITLE_META@)),
                tags: meta_or_empty(selected(html, KEYWORDS_META@)),
                owner: owner->Ok_0,
                main_photo: main_photo->Ok_0,
            },
        )
    }
}

/// The metadata that the fields of a page make: title and description are
/// cleaned, and the address of the photo gets its scheme.
pub open spec fn metadata_of(fields: PageFieldsView) -> ImageMetadataView {
    ImageMetadataView {
        comment_count: fields.comment_count,
        fave_count: fields.fave_count,
        view_count: fields.view_count,
        license: fields.license,
        tags: fields.tags,
        title: kept_title(fields.title),
        description: kept_description(fields.description),
        owner: fields.owner,
        img_src: IMAGE_SCHEME@ + fields.main_photo,
    }
}

/// The metadata of the photo page `html`, or the first required field that
/// is flawed.
pub open spec fn page_metadata(html: Seq<char>) -> Result<ImageMetadataView, ExtractError> {
    match fields_of(html) {
        Ok(fields) => Ok(metadata_of(fields)),
        Err(error) => Err(error),
    }
}

/// What the page `html` turns out to be: a marker is looked for before any
/// field is read.
pub open spec fn page_verdict(html: Seq<char>) -> Result<PageVerdictView, ExtractError> {
    match marker_of(html) {
        Some(marker) => Ok(PageVerdictView::Filtered(marker)),
        None => match page_metadata(html) {
            Ok(metadata) => Ok(PageVerdictView::Metadata(metadata)),
            Err(error) => Err(error),
        },
    }
}

impl PageElement {
    /// The value of the attribute named `name` that has neither prefix nor
    /// namespace, if there is one.
    pub fn attr(&self, name: &str) -> (value: Option<&String>)
        ensures
            match value {
                Some(text) => plain_attribute(self@.attributes, name@) == Some(text@),
                None => plain_attribute(self@.attributes, name@) == None::<Seq<char>>,
            },
    {
        let wanted = name.to_owned();
        let mut at: usize = 0;
        assert(self@.attributes.skip(0) =~= self@.attributes);
        while at < self.attributes.len()
            invariant
                at <= self.attributes.len(),
                wanted@ == name@,
                plain_attribute(self@.attributes, name@) == plain_attribute(
                    self@.attributes.skip(at as int),
                    name@,
                ),
            decreases self.attributes.len() - at,
        {
            assert(self@.attributes.skip(at as int).drop_first() =~= self@.attributes.skip(
                at + 1,
            ));
            let attribute = &self.attributes[at];
            if attribute.prefix.is_none() && attribute.namespace.as_str().is_empty()
                && attribute.name == wanted {
                return Some(&attribute.value);
            }
            at += 1;
        }
        None
    }

    /// The first text node below the element, if there is one.
    pub fn first_text(&self) -> (node: Option<&String>)
        ensures
            match node {
                Some(text) => self@.text.len() > 0 && self@.text[0] == text@,
                None => self@.text.len() == 0,
            },
    {
        if self.text.len() == 0 {
            None
        } else {
            Some(&self.text[0])
        }
    }
}

/// Takes the single match out of the matches of a selector.
pub fn select_one(matches: Vec<PageElement>) -> (one: Result<PageElement, SelectError>)
    ensures
        match one {
            Ok(element) => the_one(views(matches@)) == Ok::<PageElementView, SelectError>(
                element@,
            ),
            Err(error) => the_one(views(matches@)) == Err::<PageElementView, SelectError>(error),
        },
{
    let mut matches = matches;
    if matches.len() > 1 {
        return Err(SelectError::Ambiguous);
    }
    match matches.pop() {
        Some(only) => Ok(only),
        None => Err(SelectError::NotFound),
    }
}

/// Takes the one element of a field out of the selection of the field.
pub fn required_element(found: Option<Vec<PageElement>>) -> (one: Result<PageElement, Flaw>)
    ensures
        match one {
            Ok(element) => element_of(element_views(found)) == Ok::<PageElementView, Flaw>(
                element@,
            ),
            Err(flaw) => element_of(element_views(found)) == Err::<PageElementView, Flaw>(flaw),
        },
{
    match found {
        None => Err(Flaw::InvalidSelector),
        Some(matches) => match select_one(matches) {
            Ok(element) => Ok(element),
            Err(error) => Err(Flaw::Select(error)),
        },
    }
}

/// Reads a field that is held in the attribute `name` of its one element.
pub fn required_attribute(found: Option<Vec<PageElement>>, name: &str) -> (value: Result<
    String,
    Flaw,
>)
    ensures
        match value {
            Ok(text) => attribute_of(element_views(found), name@) == Ok::<Seq<char>, Flaw>(text@),
            Err(flaw) => attribute_of(element_views(found), name@) == Err::<Seq<char>, Flaw>(
                flaw,
            ),
        },
{
    match required_element(found) {
        Err(flaw) => Err(flaw),
        Ok(element) => match element.attr(name) {
            Some(text) => Ok(text.clone()),
            None => Err(Flaw::MissingAttribute),
        },
    }
}

/// Reads a field that is the first text node of its one element.
pub fn required_text(found: Option<Vec<PageElement>>) -> (value: Result<String, Flaw>)
    ensures
        match value {
            Ok(text) => first_text_of(element_views(found)) == Ok::<Seq<char>, Flaw>(text@),
            Err(flaw) => first_text_of(element_views(found)) == Err::<Seq<char>, Flaw>(flaw),
        },
{
    match required_element(found) {
        Err(flaw) => Err(flaw),
        Ok(element) => match element.first_text() {
            Some(text) => Ok(text.clone()),
            None => Err(Flaw::MissingText),
        },
    }
}

/// Reads a count off the first text node of its one element.
pub fn count_field(found: Option<Vec<PageElement>>) -> (value: Result<u32, Flaw>)
    ensures
        value == count_field_of(element_views(found)),
{
    match required_text(found) {
        Err(flaw) => Err(flaw),
        Ok(label) => match parse_count(label.as_str()) {
            Some(count) => Ok(count),
            None => Err(Flaw::MalformedNumber),
        },
    }
}

/// Reads the value of a meta tag where exactly one such tag is there and
/// holds one.
pub fn meta_content(found: Option<Vec<PageElement>>) -> (value: Option<String>)
    ensures
        match value {
            Some(text) => meta_of(element_views(found)) == Some(text@),
            None => meta_of(element_views(found)) == None::<Seq<char>>,
        },
{
    match required_attribute(found, CONTENT) {
        Ok(text) => Some(text),
        Err(_) => None,
    }
}

/// Tells whether a selection of marker elements is not empty.
pub fn marker_found(found: &Option<Vec<PageElement>>) -> (marked: bool)
    ensures
        marked == is_marked(element_views(*found)),
{
    match found {
        Some(matches) => matches.len() > 0,
        None => false,
    }
}

/// Reads the value of the meta tag that `selector` selects in the page `html`.
pub fn parse_meta(html: &str, selector: &str) -> (value: Option<String>)
    ensures
        match value {
            Some(text) => meta_of(selected(html@, selector@)) == Some(text@),
            None => meta_of(selected(html@, selector@)) == None::<Seq<char>>,
        },
{
    meta_content(select(html, selector))
}

/// Reads the value of a meta tag, or the empty text where there is none.
fn meta_or_nothing(html: &str, selector: &str) -> (value: String)
    ensures
        value@ == meta_or_empty(selected(html@, selector@)),
{
    match parse_meta(html, selector) {
        Some(text) => text,
        None => String::new(),
    }
}

impl PageFields {
    /// Makes the metadata of the image: cleans title and description, and
    /// puts the scheme in front of the address of the photo.
    pub fn into_metadata(self) -> (metadata: ImageMetadata)
        ensures
            metadata@ == metadata_of(self@),
    {
        ImageMetadata {
            comment_count: self.comment_count,
            fave_count: self.fave_count,
            view_count: self.view_count,
            license: self.license,
            tags: self.tags,
            title: retain_title(self.title),
            description: clean_description(self.description),
            owner: self.owner,
            img_src: IMAGE_SCHEME.to_owned().concat(self.main_photo.as_str()),
        }
    }
}

/// Reads the fields of a photo page, one selection after the other, and
/// stops at the first required field that is flawed.
pub fn read_fields(html: &str) -> (result: Result<PageFields, ExtractError>)
    ensures
        match result {
            Ok(fields) => fields_of(html@) == Ok::<PageFieldsView, ExtractError>(fields@),
            Err(error) => fields_of(html@) == Err::<PageFieldsView, ExtractError>(error),
        },
{
    let license = match required_attribute(select(html, LICENSE_LINK), HREF) {
        Ok(value) => value,
        Err(flaw) => return Err(ExtractError { field: Field::License, flaw }),
    };
    let comment_count = match count_field(select(html, COMMENT_COUNT_LABEL)) {
        Ok(value) => value,
        Err(flaw) => return Err(ExtractError { field: Field::CommentCount, flaw }),
    };
    let fave_count = match count_field(select(html, FAVE_COUNT_LABEL)) {
        Ok(value) => value,
        Err(flaw) => return Err(ExtractError { field: Field::FaveCount, flaw }),
    };
    let view_count = match count_field(select(html, VIEW_COUNT_LABEL)) {
        Ok(value) => value,
        Err(flaw) => return Err(ExtractError { field: Field::ViewCount, flaw }),
    };
    let description = meta_or_nothing(html, DESCRIPTION_META);
    let title = meta_or_nothing(html, TITLE_META);
    let tags = meta_or_nothing(html, KEYWORDS_META);
    let owner = match required_text(select(html, OWNER_NAME)) {
        Ok(value) => value,
        Err(flaw) => return Err(ExtractError { field: Field::Owner, flaw }),
    };
    let main_photo = match required_attribute(select(html, MAIN_PHOTO), SRC) {
        Ok(value) => value,
        Err(flaw) => return Err(ExtractError { field: Field::MainPhoto, flaw }),
    };
    Ok(
        PageFields {
            license,
            comment_count,
            fave_count,
            view_count,
            description,
            title,
            tags,
            owner,
            main_photo,
        },
    )
}

/// Reads the metadata of an image off its photo page.
pub fn parse_image_page(html: &str) -> (result: Result<ImageMetadata, ExtractError>)
    ensures
        match result {
            Ok(metadata) => page_metadata(html@) == Ok::<ImageMetadataView, ExtractError>(
                metadata@,
            ),
            Err(error) => page_metadata(html@) == Err::<ImageMetadataView, ExtractError>(error),
        },
{
    match read_fields(html) {
        Ok(fields) => Ok(fields.into_metadata()),
        Err(error) => Err(error),
    }
}

/// Tells what a page is: one of the kinds without a photo, or a photo page
/// with its metadata.
pub fn extract(html: &str) -> (result: Result<PageVerdict, ExtractError>)
    ensures
        match result {
            Ok(verdict) => page_verdict(html@) == Ok::<PageVerdictView, ExtractError>(verdict@),
            Err(error) => page_verdict(html@) == Err::<PageVerdictView, ExtractError>(error),
        },
{
    if marker_found(&select(html, RESTRICTED_MARKER)) {
        return Ok(PageVerdict::Filtered(Marker::Restricted));
    }
    if marker_found(&select(html, MAP_MARKER)) {
        return Ok(PageVerdict::Filtered(Marker::MapOverlay));
    }
    if marker_found(&select(html, ALL_SIZES_MARKER)) {
        return Ok(PageVerdict::Filtered(Marker::AllSizes));
    }
    match parse_image_page(html) {
        Ok(metadata) => Ok(PageVerdict::Metadata(metadata)),
        Err(error) => Err(error),
    }
}

/// A page that carries a marker is filtered, whatever else it holds or lacks.
pub proof fn marked_page_is_filtered(html: Seq<char>)
    requires
        is_marked(selected(html, RESTRICTED_MARKER@)) || is_marked(selected(html, MAP_MARKER@))
            || is_marked(selected(html, ALL_SIZES_MARKER@)),
    ensures
        page_verdict(html) matches Ok(PageVerdictView::Filtered(_)),
{
}

} // verus!
