//! Decoding of raw property replies into display-ready text.
//!
//! A property reply carries a format (bits per element), an element count and
//! a raw byte buffer. Two decoding rules exist, chosen by which property was
//! fetched, never by sniffing the content:
//!
//! * the legacy paired-string rule, for the class/instance property: the
//!   buffer holds two null-terminated byte strings (instance, then class);
//! * the UTF-8 single-string rule, for the title property: the whole buffer
//!   is one UTF-8 string.
//!
//! Malformed content never becomes an error: each affected field is replaced
//! by a fixed sentinel string instead.

use vstd::prelude::*;
use vstd::utf8::{decode_utf8, valid_utf8};
use crate::search::{find_null, first_match, is_first_match, lemma_first_match_is_unique};

verus! {

/// The result of querying one property of one window: bits per element,
/// element count, and the raw bytes. The decoders assume nothing about how
/// the three fields relate; any combination is an acceptable input.
#[derive(Debug)]
pub struct PropertyReply {
    pub format: u8,
    pub length: u32,
    pub value: Vec<u8>,
}

/// Sentinel for a legacy property whose declared format is not 8.
pub open spec fn wrong_format_text() -> Seq<char> {
    "Malformed property: wrong format"@
}

/// Sentinel for a legacy property whose buffer holds no null byte.
pub open spec fn missing_null_text() -> Seq<char> {
    "Missing null byte"@
}

/// Sentinel for a buffer (or buffer segment) that is not valid UTF-8.
pub open spec fn invalid_utf8_text() -> Seq<char> {
    "Invalid utf8"@
}

/// The text a byte sequence decodes to: its UTF-8 decoding if it is valid
/// UTF-8, the sentinel otherwise.
pub open spec fn utf8_or_invalid(bytes: Seq<u8>) -> Seq<char> {
    if valid_utf8(bytes) {
        decode_utf8(bytes)
    } else {
        invalid_utf8_text()
    }
}

/// `bytes` with a single trailing null byte stripped, if one is there.
pub open spec fn strip_trailing_null(bytes: Seq<u8>) -> Seq<u8> {
    if bytes.len() > 0 && bytes[bytes.len() - 1] == 0u8 {
        bytes.drop_last()
    } else {
        bytes
    }
}

/// The two fields of the legacy paired-string decoding: the instance text
/// (before the first null byte) and the class text (after it, with a single
/// trailing null byte stripped). A wrong format or a buffer without a null
/// byte turns both fields into the matching sentinel.
pub open spec fn legacy_pair(format: u8, value: Seq<u8>) -> (Seq<char>, Seq<char>) {
    if format != 8 {
        (wrong_format_text(), wrong_format_text())
    } else if !value.contains(0u8) {
        (missing_null_text(), missing_null_text())
    } else {
        let i = first_match(value, 0u8);
        (
            utf8_or_invalid(value.take(i)),
            utf8_or_invalid(strip_trailing_null(value.skip(i + 1))),
        )
    }
}

/// Relies on `std::str::from_utf8`: it succeeds exactly on the byte
/// sequences that vstd's `valid_utf8` admits, and the string it returns is
/// their decoding, `decode_utf8`.
#[verifier::external_body]
fn bytes_to_text(bytes: &Vec<u8>) -> (r: Option<String>)
    ensures
        match r {
            Some(s) => valid_utf8(bytes@) && s@ == decode_utf8(bytes@),
            None => !valid_utf8(bytes@),
        },
{
    match std::str::from_utf8(bytes) {
        Ok(s) => Some(s.to_owned()),
        Err(_) => None,
    }
}

/// The text `bytes` decodes to, with the sentinel standing in for invalid
/// UTF-8.
fn text_or_invalid(bytes: &Vec<u8>) -> (r: String)
    ensures
        r@ == utf8_or_invalid(bytes@),
{
    match bytes_to_text(bytes) {
        Some(s) => s,
        None => "Invalid utf8".to_owned(),
    }
}

/// The bytes of `v` from position `from` up to (excluding) position `to`.
fn byte_range(v: &Vec<u8>, from: usize, to: usize) -> (r: Vec<u8>)
    requires
        from <= to <= v@.len(),
    ensures
        r@ == v@.subrange(from as int, to as int),
{
    let mut r: Vec<u8> = Vec::new();
    let mut i: usize = from;
    while i < to
        invariant
            from <= i <= to <= v@.len(),
            r@ == v@.subrange(from as int, i as int),
        decreases to - i,
    {
        let b = v[i];
        r.push(b);
        assert(v@.subrange(from as int, i + 1 as int) =~= v@.subrange(from as int, i as int)
            .push(b));
        i = i + 1;
    }
    r
}

/// Legacy paired-string decode of the class/instance property: the pair of
/// (instance, class) texts. Both halves are computed, because they cannot be
/// separated without parsing both; callers that only need the class discard
/// the instance.
pub fn parse_wm_class(property: &PropertyReply) -> (r: (String, String))
    ensures
        r.0@ == legacy_pair(property.format, property.value@).0,
        r.1@ == legacy_pair(property.format, property.value@).1,
{
    if property.format != 8 {
        return (
            "Malformed property: wrong format".to_owned(),
            "Malformed property: wrong format".to_owned(),
        );
    }
    match find_null(&property.value) {
        None => ("Missing null byte".to_owned(), "Missing null byte".to_owned()),
        Some(middle) => {
            proof {
                lemma_first_match_is_unique(property.value@, 0u8, middle as int);
            }
            let len = property.value.len();
            let instance_bytes = byte_range(&property.value, 0, middle);
            let end = if middle + 1 < len && property.value[len - 1] == 0u8 {
                len - 1
            } else {
                len
            };
            let class_bytes = byte_range(&property.value, middle + 1, end);
            assert(instance_bytes@ =~= property.value@.take(middle as int));
            assert(class_bytes@ =~= strip_trailing_null(
                property.value@.skip(middle + 1 as int),
            ));
            (text_or_invalid(&instance_bytes), text_or_invalid(&class_bytes))
        },
    }
}

/// UTF-8 single-string decode of the title property: the whole buffer as
/// UTF-8 text, with the sentinel standing in for invalid encodings. The
/// declared format plays no part in this rule.
pub fn parse_string_property(property: &PropertyReply) -> (r: String)
    ensures
        r@ == utf8_or_invalid(property.value@),
{
    text_or_invalid(&property.value)
}

/// Law: a buffer holding exactly one null byte, at position `i`, with at
/// least one byte after it, decodes to the text before the null and the text
/// after it (minus a single trailing null, were one present — with only one
/// null in the buffer there is none to strip).
pub proof fn lemma_legacy_pair_single_null(value: Seq<u8>, i: int)
    requires
        0 <= i < value.len() - 1,
        value[i] == 0u8,
        forall|j: int| 0 <= j < value.len() && j != i ==> value[j] != 0u8,
    ensures
        legacy_pair(8, value) == (
            utf8_or_invalid(value.take(i)),
            utf8_or_invalid(strip_trailing_null(value.skip(i + 1))),
        ),
        strip_trailing_null(value.skip(i + 1)) == value.skip(i + 1),
{
    assert(value.contains(0u8));
    assert(is_first_match(value, 0u8, i));
    lemma_first_match_is_unique(value, 0u8, i);
    let rest = value.skip(i + 1);
    assert(rest.len() > 0);
    assert(rest[rest.len() - 1] == value[value.len() - 1]);
}

/// Law: a buffer with no null byte at all decodes to the missing-null
/// sentinel in both fields, whatever its length and content.
pub proof fn lemma_legacy_pair_missing_null(value: Seq<u8>)
    requires
        forall|j: int| 0 <= j < value.len() ==> value[j] != 0u8,
    ensures
        legacy_pair(8, value) == (missing_null_text(), missing_null_text()),
{
    assert(!value.contains(0u8));
}

/// Law: a declared format other than 8 decodes to the wrong-format sentinel
/// in both fields, whatever the buffer holds.
pub proof fn lemma_legacy_pair_wrong_format(format: u8, value: Seq<u8>)
    requires
        format != 8,
    ensures
        legacy_pair(format, value) == (wrong_format_text(), wrong_format_text()),
{
}

} // verus!
