//! Tells the URL of an original image from that of a resized variant.
//!
//! The photo host names a variant by an underscore and one lower-case letter
//! in front of a dot of the file name (`123_abc_m.jpg`); the original has none
//! (`123_abc.jpg`).

use crate::text::texts;
use vstd::prelude::*;

verus! {

/// `url::ParseError`, carried through as a value that nothing here looks into.
#[verifier::external_type_specification]
#[verifier::external_body]
pub struct ExUrlParseError(url::ParseError);

/// The regular expression of a variant suffix: an underscore, one lower-case
/// ASCII letter and a dot.
pub const VARIANT_PATTERN: &'static str = "_[a-z]\\.";

/// A variant suffix stands in `name` at offset `at`.
pub open spec fn variant_suffix_at(name: Seq<char>, at: int) -> bool {
    &&& 0 <= at
    &&& at + 2 < name.len()
    &&& name[at] == '_'
    &&& 'a' <= name[at + 1] <= 'z'
    &&& name[at + 2] == '.'
}

/// `name` holds a variant suffix.
pub open spec fn has_variant_suffix(name: Seq<char>) -> bool {
    exists|at: int| variant_suffix_at(name, at)
}

/// What `url::Url::parse` and `Url::path_segments` make of `url`: `Err(())`
/// where it does not parse as an absolute URL, `Ok(None)` where it parses to a
/// URL that cannot be a base and so has no path segments, else the segments of
/// its path, percent-encoded.
pub uninterp spec fn path_segments(url: Seq<char>) -> Result<Option<Seq<Seq<char>>>, ()>;

/// The mathematical value of the outcome of parsing a URL into the segments
/// of its path.
pub open spec fn segments_view(parsed: Result<Option<Vec<String>>, url::ParseError>) -> Result<
    Option<Seq<Seq<char>>>,
    (),
> {
    match parsed {
        Ok(Some(segments)) => Ok(Some(texts(segments@))),
        Ok(None) => Ok(None),
        Err(_) => Err(()),
    }
}

/// Calls `url::Url::parse` on `url` and `Url::path_segments` on the URL it
/// gives, and copies the segments out. The contract only names the outcome.
#[verifier::external_body]
fn url_path_segments(url: &str) -> (parsed: Result<Option<Vec<String>>, url::ParseError>)
    ensures
        segments_view(parsed) == path_segments(url@),
{
    let parsed = url::Url::parse(url)?;
    Ok(parsed.path_segments().map(|segments| segments.map(|segment| segment.to_string()).collect()))
}

/// Calls `regex::Regex::new` on the variant pattern and `Regex::is_match` on
/// `text`. The contract spells out what an unanchored search for that pattern
/// finds: the three characters it stands for, in a row, anywhere in `text`.
#[verifier::external_body]
fn variant_pattern_matches(pattern: &str, text: &str) -> (found: bool)
    requires
        pattern@ == VARIANT_PATTERN@,
    ensures
        found == has_variant_suffix(text@),
{
    regex::Regex::new(pattern).unwrap().is_match(text)
}

/// Why a URL has no file name to judge.
#[derive(Clone, Copy, Debug, PartialEq, Eq, Structural)]
pub enum UrlError {
    /// The text is not an absolute URL.
    Unparsable,
    /// The URL has no path segments.
    NoPath,
}

/// Whether a URL names the original, as a function of the outcome of parsing
/// it into the segments of its path: the last segment is the file name.
pub open spec fn judged(parsed: Result<Option<Seq<Seq<char>>>, ()>) -> Result<bool, UrlError> {
    match parsed {
        Err(_) => Err(UrlError::Unparsable),
        Ok(None) => Err(UrlError::NoPath),
        Ok(Some(segments)) => if segments.len() == 0 {
            Err(UrlError::NoPath)
        } else {
            Ok(!has_variant_suffix(segments.last()))
        },
    }
}

/// Whether the image at `url` is the original.
pub open spec fn canonical_of(url: Seq<char>) -> Result<bool, UrlError> {
    judged(path_segments(url))
}

/// Tells whether a file name is that of an original image.
pub fn filename_is_canonical(filename: &str) -> (canonical: bool)
    ensures
        canonical == !has_variant_suffix(filename@),
{
    !variant_pattern_matches(VARIANT_PATTERN, filename)
}

/// Judges a URL by the outcome of parsing it into the segments of its path.
pub fn judge(parsed: Result<Option<Vec<String>>, url::ParseError>) -> (result: Result<
    bool,
    UrlError,
>)
    ensures
        result == judged(segments_view(parsed)),
{
    match parsed {
        Err(_) => Err(UrlError::Unparsable),
        Ok(None) => Err(UrlError::NoPath),
        Ok(Some(segments)) => {
            if segments.len() == 0 {
                return Err(UrlError::NoPath);
            }
            let filename = &segments[segments.len() - 1];
            Ok(filename_is_canonical(filename.as_str()))
        },
    }
}

/// Tells whether `url` names an original image rather than a resized variant.
pub fn is_canonical(url: &str) -> (result: Result<bool, UrlError>)
    ensures
        result == canonical_of(url@),
{
    judge(url_path_segments(url))
}

/// A file name made of a stem, an underscore, one lower-case letter, a dot
/// and an extension holds a variant suffix, whatever the stem and extension.
pub proof fn suffixed_name_is_variant(stem: Seq<char>, letter: char, extension: Seq<char>)
    requires
        'a' <= letter <= 'z',
    ensures
        has_variant_suffix(stem + seq!['_', letter, '.'] + extension),
{
    let name = stem + seq!['_', letter, '.'] + extension;
    assert(variant_suffix_at(name, stem.len() as int));
}

/// A file name without an underscore holds no variant suffix, and neither
/// does one without a dot.
pub proof fn plain_name_is_not_variant(name: Seq<char>)
    requires
        !name.contains('_') || !name.contains('.'),
    ensures
        !has_variant_suffix(name),
{
}

} // verus!
