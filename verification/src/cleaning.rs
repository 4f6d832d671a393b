//! The rules that clean what a photo page says of its image: titles that are
//! camera file names, descriptions that the site wrote itself, and counts
//! written with thousands separators.

use crate::text::{
    chars_of, count_digits, digit_count, ends_with, has_suffix, lowercase, parse_unsigned,
    remove_all, to_lowercase, trim, trimmed, unsigned_of, utf8_length, without,
};
use vstd::prelude::*;
use vstd::utf8::encode_utf8;

verus! {

/// The ending of the description that the site writes for an upload without one.
pub const DEFAULT_DESCRIPTION_ENDING: &'static str = " photos to Flickr.";

/// The thousands separator of a count.
pub const THOUSANDS_SEPARATOR: &'static str = ",";

/// A lower-case title without the words that cameras put into file names:
/// first every `img`, then every `dcim`, every `dsc` and every `untitled`.
pub open spec fn strip_camera_words(lowered: Seq<char>) -> Seq<char> {
    without(without(without(without(lowered, "img"@), "dcim"@), "dsc"@), "untitled"@)
}

/// A lower-case title says something: once the camera words are out, fewer
/// than half of its bytes are digits.
pub open spec fn is_meaningful(lowered: Seq<char>) -> bool {
    let cleaned = strip_camera_words(lowered);
    2 * digit_count(cleaned) < encode_utf8(cleaned).len()
}

/// The title that stays: the title itself where it says something, else none.
pub open spec fn kept_title(title: Seq<char>) -> Seq<char> {
    if is_meaningful(lowercase(title)) {
        title
    } else {
        Seq::empty()
    }
}

/// The description that stays: none where the site wrote it, else the
/// description itself.
pub open spec fn kept_description(description: Seq<char>) -> Seq<char> {
    if has_suffix(description, DEFAULT_DESCRIPTION_ENDING@) {
        Seq::empty()
    } else {
        description
    }
}

/// The number that a count label shows: the text without the whitespace
/// round it and without thousands separators, read as an unsigned number.
pub open spec fn count_of(label: Seq<char>) -> Option<u32> {
    unsigned_of(without(trim(label), THOUSANDS_SEPARATOR@))
}

/// Tells whether a title that is already in lower case says something.
pub fn lowered_title_is_meaningful(lowered: &str) -> (keep: bool)
    ensures
        keep == is_meaningful(lowered@),
{
    let chars = chars_of(lowered);
    let img = chars_of("img");
    let dcim = chars_of("dcim");
    let dsc = chars_of("dsc");
    let untitled = chars_of("untitled");
    let step1 = remove_all(chars.as_slice(), img.as_slice());
    let step2 = remove_all(step1.as_slice(), dcim.as_slice());
    let step3 = remove_all(step2.as_slice(), dsc.as_slice());
    let cleaned = remove_all(step3.as_slice(), untitled.as_slice());
    let digits: u128 = count_digits(cleaned.as_slice()) as u128;
    let length: u128 = utf8_length(cleaned.as_slice());
    2 * digits < length
}

/// Tells whether a title is worth keeping: titles that are mostly digits
/// once the camera words are out are not.
pub fn clean_title(title: &str) -> (keep: bool)
    ensures
        keep == is_meaningful(lowercase(title@)),
{
    let lowered = to_lowercase(title);
    lowered_title_is_meaningful(lowered.as_str())
}

/// Keeps a title that says something and drops any other.
pub fn retain_title(title: String) -> (kept: String)
    ensures
        kept@ == kept_title(title@),
{
    if clean_title(title.as_str()) {
        title
    } else {
        String::new()
    }
}

/// Drops a description that the site wrote itself and keeps any other.
pub fn clean_description(description: String) -> (kept: String)
    ensures
        kept@ == kept_description(description@),
{
    let chars = chars_of(description.as_str());
    let ending = chars_of(DEFAULT_DESCRIPTION_ENDING);
    if ends_with(chars.as_slice(), ending.as_slice()) {
        String::new()
    } else {
        description
    }
}

/// Reads the number that a count label shows.
pub fn parse_count(label: &str) -> (count: Option<u32>)
    ensures
        count == count_of(label@),
{
    let chars = chars_of(label);
    let inner = trimmed(chars.as_slice());
    let separator = chars_of(THOUSANDS_SEPARATOR);
    let digits = remove_all(inner.as_slice(), separator.as_slice());
    parse_unsigned(digits.as_slice())
}

/// A title of which, in lower case and without the camera words, half the
/// bytes or more are digits is dropped; any other title stays as it is.
pub proof fn title_is_kept_or_dropped(title: Seq<char>)
    ensures
        ({
            let cleaned = strip_camera_words(lowercase(title));
            &&& 2 * digit_count(cleaned) >= encode_utf8(cleaned).len() ==> kept_title(title)
                == Seq::<char>::empty()
            &&& 2 * digit_count(cleaned) < encode_utf8(cleaned).len() ==> kept_title(title)
                == title
        }),
{
}

/// A description that ends with the ending of the default description is
/// dropped; any other description stays as it is.
pub proof fn description_is_kept_or_dropped(description: Seq<char>)
    ensures
        has_suffix(description, DEFAULT_DESCRIPTION_ENDING@) ==> kept_description(description)
            == Seq::<char>::empty(),
        !has_suffix(description, DEFAULT_DESCRIPTION_ENDING@) ==> kept_description(description)
            == description,
{
}

/// Whatever stands in front of the ending of the default description, the
/// description is dropped.
pub proof fn default_description_is_dropped(start: Seq<char>)
    ensures
        kept_description(start + DEFAULT_DESCRIPTION_ENDING@) == Seq::<char>::empty(),
{
    let ending = DEFAULT_DESCRIPTION_ENDING@;
    let whole = start + ending;
    assert(whole.subrange(whole.len() - ending.len(), whole.len() as int) =~= ending);
}

} // verus!
