//! Plain operations on sequences of characters and bytes: searching,
//! removing, trimming and reading decimal numbers.

use vstd::prelude::*;
use vstd::string::StringSliceAdditionalSpecFns;
use vstd::utf8::{encode_utf8, valid_utf8};

verus! {

/// The views of a list of strings.
pub open spec fn texts(strings: Seq<String>) -> Seq<Seq<char>> {
    strings.map_values(|text: String| text@)
}

/// The value of the first entry named `name` in a list of named values, if
/// there is one.
pub open spec fn first_named<V>(entries: Seq<(Seq<char>, V)>, name: Seq<char>) -> Option<V>
    decreases entries.len(),
{
    if entries.len() == 0 {
        None
    } else if entries[0].0 == name {
        Some(entries[0].1)
    } else {
        first_named(entries.drop_first(), name)
    }
}

/// `needle` stands in `hay` at offset `at`.
pub open spec fn found_at<T>(hay: Seq<T>, needle: Seq<T>, at: int) -> bool {
    0 <= at && at + needle.len() <= hay.len() && hay.subrange(at, at + needle.len()) == needle
}

/// `hay` begins with `needle`.
pub open spec fn has_prefix<T>(hay: Seq<T>, needle: Seq<T>) -> bool {
    found_at(hay, needle, 0)
}

/// `hay` ends with `needle`.
pub open spec fn has_suffix<T>(hay: Seq<T>, needle: Seq<T>) -> bool {
    found_at(hay, needle, hay.len() - needle.len())
}

/// `needle` stands somewhere in `hay`.
pub open spec fn has_infix<T>(hay: Seq<T>, needle: Seq<T>) -> bool {
    exists|at: int| found_at(hay, needle, at)
}

/// `text` with every occurrence of `pattern` taken out, scanning from the left
/// and resuming behind each occurrence. An empty pattern removes nothing.
pub open spec fn without(text: Seq<char>, pattern: Seq<char>) -> Seq<char>
    decreases text.len(),
{
    if pattern.len() == 0 || text.len() < pattern.len() {
        text
    } else if has_prefix(text, pattern) {
        without(text.skip(pattern.len() as int), pattern)
    } else {
        seq![text[0]] + without(text.skip(1), pattern)
    }
}

/// The characters with the Unicode property `White_Space`.
pub open spec fn is_whitespace(c: char) -> bool {
    let code = c as u32;
    ||| 0x09 <= code <= 0x0D
    ||| code == 0x20
    ||| code == 0x85
    ||| code == 0xA0
    ||| code == 0x1680
    ||| 0x2000 <= code <= 0x200A
    ||| code == 0x2028
    ||| code == 0x2029
    ||| code == 0x202F
    ||| code == 0x205F
    ||| code == 0x3000
}

/// `text` without its leading whitespace.
pub open spec fn trim_start(text: Seq<char>) -> Seq<char>
    decreases text.len(),
{
    if text.len() > 0 && is_whitespace(text[0]) {
        trim_start(text.drop_first())
    } else {
        text
    }
}

/// `text` without its trailing whitespace.
pub open spec fn trim_end(text: Seq<char>) -> Seq<char>
    decreases text.len(),
{
    if text.len() > 0 && is_whitespace(text.last()) {
        trim_end(text.drop_last())
    } else {
        text
    }
}

/// `text` without the whitespace that surrounds it.
pub open spec fn trim(text: Seq<char>) -> Seq<char> {
    trim_end(trim_start(text))
}

/// One of the ten ASCII digits.
pub open spec fn is_digit(c: char) -> bool {
    '0' <= c <= '9'
}

/// How many of the characters of `text` are ASCII digits.
pub open spec fn digit_count(text: Seq<char>) -> nat
    decreases text.len(),
{
    if text.len() == 0 {
        0
    } else {
        digit_count(text.drop_last()) + if is_digit(text.last()) {
            1nat
        } else {
            0nat
        }
    }
}

/// The number that the digits of `text` write in base ten.
pub open spec fn decimal_value(text: Seq<char>) -> nat
    decreases text.len(),
{
    if text.len() == 0 {
        0
    } else {
        decimal_value(text.drop_last()) * 10 + (text.last() as u32 - '0' as u32) as nat
    }
}

/// `text` is one digit or more, and nothing else.
pub open spec fn is_decimal(text: Seq<char>) -> bool {
    text.len() > 0 && forall|i: int| 0 <= i < text.len() ==> is_digit(#[trigger] text[i])
}

/// The unsigned 32-bit number that `text` writes: digits, with one `+` allowed
/// in front of them. `None` where `text` is anything else or the number does
/// not fit.
pub open spec fn unsigned_of(text: Seq<char>) -> Option<u32> {
    let digits = if text.len() > 0 && text[0] == '+' {
        text.drop_first()
    } else {
        text
    };
    if is_decimal(digits) && decimal_value(digits) <= u32::MAX {
        Some(decimal_value(digits) as u32)
    } else {
        None
    }
}

/// The lower-case form of `text` that `str::to_lowercase` computes.
pub uninterp spec fn lowercase(text: Seq<char>) -> Seq<char>;

/// Calls `str::to_lowercase`. The contract only names the result: the
/// mapping is that of the Unicode tables built into the standard library.
#[verifier::external_body]
pub(crate) fn to_lowercase(text: &str) -> (lowered: String)
    ensures
        lowered@ == lowercase(text@),
{
    text.to_lowercase()
}

/// Calls `core::str::from_utf8`. The contract says that the call succeeds
/// exactly on well-formed UTF-8 and that the text it returns is made of the
/// very bytes it was given.
#[verifier::external_body]
pub(crate) fn text_of(bytes: &[u8]) -> (text: Option<&str>)
    ensures
        text is Some <==> valid_utf8(bytes@),
        text matches Some(t) ==> t.spec_bytes() == bytes@,
{
    core::str::from_utf8(bytes).ok()
}

/// The characters of `text`, in order.
pub fn chars_of(text: &str) -> (chars: Vec<char>)
    ensures
        chars@ == text@,
{
    let mut chars: Vec<char> = Vec::new();
    for c in it: text.chars()
        invariant
            it.seq() == text@,
            chars@ == it.seq().take(it.index() as int),
    {
        chars.push(c);
    }
    chars
}

/// Tells whether `needle` stands in `hay` at offset `at`.
pub fn matches_at(hay: &[char], needle: &[char], at: usize) -> (found: bool)
    ensures
        found == found_at(hay@, needle@, at as int),
{
    if needle.len() > hay.len() || at > hay.len() - needle.len() {
        return false;
    }
    let mut k: usize = 0;
    while k < needle.len()
        invariant
            k <= needle.len(),
            at + needle.len() <= hay.len(),
            forall|j: int| 0 <= j < k ==> hay@[at + j] == needle@[j],
        decreases needle.len() - k,
    {
        if hay[at + k] != needle[k] {
            return false;
        }
        k += 1;
    }
    assert(hay@.subrange(at as int, at + needle@.len()) =~= needle@);
    true
}

/// Tells whether `hay` begins with `needle`.
pub fn starts_with(hay: &[char], needle: &[char]) -> (found: bool)
    ensures
        found == has_prefix(hay@, needle@),
{
    matches_at(hay, needle, 0)
}

/// Tells whether `hay` ends with `needle`.
pub fn ends_with(hay: &[char], needle: &[char]) -> (found: bool)
    ensures
        found == has_suffix(hay@, needle@),
{
    if needle.len() > hay.len() {
        return false;
    }
    matches_at(hay, needle, hay.len() - needle.len())
}

/// Tells whether `needle` stands somewhere in `hay`.
pub fn contains(hay: &[char], needle: &[char]) -> (found: bool)
    ensures
        found == has_infix(hay@, needle@),
{
    if needle.len() > hay.len() {
        return false;
    }
    let last: usize = hay.len() - needle.len();
    let mut at: usize = 0;
    loop
        invariant
            last == hay.len() - needle.len(),
            at <= last,
            forall|i: int| 0 <= i < at ==> !found_at(hay@, needle@, i),
        decreases last - at,
    {
        if matches_at(hay, needle, at) {
            return true;
        }
        if at == last {
            return false;
        }
        at += 1;
    }
}

/// Tells whether the bytes of `hay` begin with those of `needle`.
pub fn bytes_start_with(hay: &[u8], needle: &[u8]) -> (found: bool)
    ensures
        found == has_prefix(hay@, needle@),
{
    if needle.len() > hay.len() {
        return false;
    }
    let mut k: usize = 0;
    while k < needle.len()
        invariant
            k <= needle.len() <= hay.len(),
            forall|j: int| 0 <= j < k ==> hay@[j] == needle@[j],
        decreases needle.len() - k,
    {
        if hay[k] != needle[k] {
            return false;
        }
        k += 1;
    }
    assert(hay@.subrange(0, needle@.len() as int) =~= needle@);
    true
}

/// Tells whether two byte strings are the same.
pub fn bytes_equal(left: &[u8], right: &[u8]) -> (same: bool)
    ensures
        same == (left@ == right@),
{
    if left.len() != right.len() {
        return false;
    }
    let same = bytes_start_with(left, right);
    assert(left@.subrange(0, left@.len() as int) =~= left@);
    same
}

/// Unfolds `without` by one character that starts no occurrence.
proof fn without_keeps_first(text: Seq<char>, pattern: Seq<char>)
    requires
        text.len() > 0,
        !has_prefix(text, pattern) || pattern.len() == 0,
    ensures
        without(text, pattern) == seq![text[0]] + without(text.skip(1), pattern),
{
}

/// Takes every occurrence of `pattern` out of `text`.
pub fn remove_all(text: &[char], pattern: &[char]) -> (kept: Vec<char>)
    ensures
        kept@ == without(text@, pattern@),
{
    let mut kept: Vec<char> = Vec::new();
    let mut at: usize = 0;
    assert(text@.skip(0) =~= text@);
    while at < text.len()
        invariant
            at <= text.len(),
            kept@ + without(text@.skip(at as int), pattern@) == without(text@, pattern@),
        decreases text.len() - at,
    {
        let ghost rest = text@.skip(at as int);
        if pattern.len() > 0 && matches_at(text, pattern, at) {
            proof {
                assert(rest.subrange(0, pattern@.len() as int) =~= text@.subrange(
                    at as int,
                    at + pattern@.len(),
                ));
                assert(rest.skip(pattern@.len() as int) =~= text@.skip(at + pattern@.len()));
            }
            at += pattern.len();
        } else {
            proof {
                if pattern@.len() > 0 && has_prefix(rest, pattern@) {
                    assert(rest.subrange(0, pattern@.len() as int) =~= text@.subrange(
                        at as int,
                        at + pattern@.len(),
                    ));
                }
                without_keeps_first(rest, pattern@);
                assert(rest.skip(1) =~= text@.skip(at + 1));
            }
            kept.push(text[at]);
            at += 1;
        }
    }
    kept
}

/// Tells whether `c` is whitespace.
pub fn char_is_whitespace(c: char) -> (white: bool)
    ensures
        white == is_whitespace(c),
{
    let code: u32 = c as u32;
    (0x09 <= code && code <= 0x0D) || code == 0x20 || code == 0x85 || code == 0xA0 || code
        == 0x1680 || (0x2000 <= code && code <= 0x200A) || code == 0x2028 || code == 0x2029
        || code == 0x202F || code == 0x205F || code == 0x3000
}

/// Copies `text` without the whitespace that surrounds it.
pub fn trimmed(text: &[char]) -> (inner: Vec<char>)
    ensures
        inner@ == trim(text@),
{
    let mut start: usize = 0;
    assert(text@.skip(0) =~= text@);
    while start < text.len() && char_is_whitespace(text[start])
        invariant
            start <= text.len(),
            trim_start(text@) == trim_start(text@.skip(start as int)),
        decreases text.len() - start,
    {
        assert(text@.skip(start as int).drop_first() =~= text@.skip(start + 1));
        start += 1;
    }
    let mut end: usize = text.len();
    while end > start && char_is_whitespace(text[end - 1])
        invariant
            start <= end <= text.len(),
            trim_start(text@) == text@.subrange(start as int, text@.len() as int),
            trim(text@) == trim_end(text@.subrange(start as int, end as int)),
        decreases end - start,
    {
        assert(text@.subrange(start as int, end as int).drop_last() =~= text@.subrange(
            start as int,
            end - 1,
        ));
        end -= 1;
    }
    let mut inner: Vec<char> = Vec::new();
    let mut at: usize = start;
    while at < end
        invariant
            start <= at <= end <= text.len(),
            inner@ == text@.subrange(start as int, at as int),
        decreases end - at,
    {
        inner.push(text[at]);
        at += 1;
    }
    inner
}

/// Counts the ASCII digits of `text`.
pub fn count_digits(text: &[char]) -> (count: usize)
    ensures
        count == digit_count(text@),
{
    let mut count: usize = 0;
    let mut at: usize = 0;
    while at < text.len()
        invariant
            at <= text.len(),
            count <= at,
            count == digit_count(text@.take(at as int)),
        decreases text.len() - at,
    {
        assert(text@.take(at + 1).drop_last() =~= text@.take(at as int));
        let c = text[at];
        if '0' <= c && c <= '9' {
            count += 1;
        }
        at += 1;
    }
    assert(text@.take(at as int) =~= text@);
    count
}

/// The value of a run of digits never falls when the run grows.
proof fn decimal_value_grows(text: Seq<char>, shorter: int)
    requires
        0 <= shorter <= text.len(),
    ensures
        decimal_value(text.take(shorter)) <= decimal_value(text),
    decreases text.len(),
{
    if shorter == text.len() {
        assert(text.take(shorter) =~= text);
    } else {
        assert(text.drop_last().take(shorter) =~= text.take(shorter));
        decimal_value_grows(text.drop_last(), shorter);
    }
}

/// Reads an unsigned 32-bit number: digits, with one `+` allowed in front.
pub fn parse_unsigned(text: &[char]) -> (value: Option<u32>)
    ensures
        value == unsigned_of(text@),
{
    let first: usize = if text.len() > 0 && text[0] == '+' {
        1
    } else {
        0
    };
    let ghost digits = text@.skip(first as int);
    if first == text.len() {
        return None;
    }
    let mut total: u64 = 0;
    let mut at: usize = first;
    while at < text.len()
        invariant
            first <= at <= text.len(),
            digits == text@.skip(first as int),
            digits == if text@.len() > 0 && text@[0] == '+' {
                text@.drop_first()
            } else {
                text@
            },
            total <= u32::MAX,
            total == decimal_value(digits.take(at - first)),
            forall|i: int| 0 <= i < at - first ==> is_digit(#[trigger] digits[i]),
        decreases text.len() - at,
    {
        let c = text[at];
        assert(digits[at - first] == c);
        if !('0' <= c && c <= '9') {
            return None;
        }
        assert(digits.take(at - first + 1).drop_last() =~= digits.take(at - first));
        let next: u64 = total * 10 + ((c as u32 - '0' as u32) as u64);
        if next > u32::MAX as u64 {
            proof {
                decimal_value_grows(digits, at - first + 1);
            }
            return None;
        }
        total = next;
        at += 1;
    }
    assert(digits.take(at - first) =~= digits);
    Some(total as u32)
}

/// The number of bytes that the UTF-8 encoding of `c` takes.
pub fn utf8_width(c: char) -> (width: usize)
    ensures
        width == encode_utf8(seq![c]).len(),
        1 <= width <= 4,
{
    let code: u32 = c as u32;
    proof {
        vstd::utf8::char_is_scalar(c);
        assert(encode_utf8(seq![c].drop_first()) =~= Seq::<u8>::empty());
    }
    if code <= 0x7F {
        1
    } else if code <= 0x7FF {
        2
    } else if code <= 0xFFFF {
        3
    } else {
        4
    }
}

/// The encoding of a text is the encoding of its first character followed
/// by that of the rest.
proof fn encoding_of_first(text: Seq<char>)
    requires
        text.len() > 0,
    ensures
        encode_utf8(text).len() == encode_utf8(seq![text[0]]).len() + encode_utf8(
            text.drop_first(),
        ).len(),
{
    assert(encode_utf8(seq![text[0]].drop_first()) =~= Seq::<u8>::empty());
}

/// The number of bytes that the UTF-8 encoding of `text` takes.
pub fn utf8_length(text: &[char]) -> (length: u128)
    ensures
        length == encode_utf8(text@).len(),
{
    let mut length: u128 = 0;
    let mut at: usize = text.len();
    while at > 0
        invariant
            at <= text.len(),
            length == encode_utf8(text@.skip(at as int)).len(),
            length <= 4 * (text.len() - at),
        decreases at,
    {
        at -= 1;
        let width = utf8_width(text[at]);
        proof {
            let rest = text@.skip(at as int);
            assert(rest.drop_first() =~= text@.skip(at + 1));
            encoding_of_first(rest);
        }
        length += width as u128;
    }
    assert(text@.skip(0) =~= text@);
    length
}

} // verus!
