//! Text functions of the standard library.
use std::num::ParseIntError;
use std::str::Utf8Error;
use vstd::prelude::*;
use vstd::utf8::{decode_utf8, is_ascii_chars, valid_utf8};

use crate::decimal::{is_u32_text, u32_value};

verus! {

#[verifier::external_type_specification]
#[verifier::external_body]
pub struct ExParseIntError(ParseIntError);

#[verifier::external_type_specification]
#[verifier::external_body]
pub struct ExUtf8Error(Utf8Error);

/// The error with which `str::from_utf8` refuses bytes that are not UTF-8.
pub uninterp spec fn utf8_error(bytes: Seq<u8>) -> Utf8Error;

/// The text that `String::from_utf8_lossy` makes of bytes.
pub uninterp spec fn lossy_text(bytes: Seq<u8>) -> Seq<char>;

/// The text that `str::to_lowercase` makes of a text.
pub uninterp spec fn lowercase_text(text: Seq<char>) -> Seq<char>;

/// The error with which `u32::from_str` refuses a text.
pub uninterp spec fn u32_error(text: Seq<char>) -> ParseIntError;

/// An ASCII letter in lowercase, and any other character as it is.
pub open spec fn ascii_lowercase(c: char) -> char {
    if 'A' <= c <= 'Z' {
        (c as int + 32) as char
    } else {
        c
    }
}

/// Calls `std::str::from_utf8`: bytes that are valid UTF-8 come back as the
/// text that they encode, and others are refused with an error that depends on
/// the bytes alone.
#[verifier::external_body]
pub(crate) fn utf8_str(bytes: &[u8]) -> (r: Result<&str, Utf8Error>)
    ensures
        r is Ok <==> valid_utf8(bytes@),
        r matches Ok(s) ==> s@ == decode_utf8(bytes@),
        r matches Err(e) ==> e == utf8_error(bytes@),
{
    std::str::from_utf8(bytes)
}

/// Calls `String::from_utf8_lossy`: the text depends on the bytes alone, and is
/// the text that they encode where they are valid UTF-8. What takes the place
/// of other bytes is left unsaid.
#[verifier::external_body]
pub(crate) fn utf8_lossy(bytes: &[u8]) -> (s: String)
    ensures
        s@ == lossy_text(bytes@),
        valid_utf8(bytes@) ==> s@ == decode_utf8(bytes@),
{
    String::from_utf8_lossy(bytes).into_owned()
}

/// Calls `str::to_lowercase`: the result depends on the text alone. In a text
/// that is all ASCII the letters `A` to `Z` become `a` to `z` and nothing else
/// changes.
#[verifier::external_body]
pub(crate) fn to_lowercase(text: &str) -> (s: String)
    ensures
        s@ == lowercase_text(text@),
        is_ascii_chars(text@) ==> s@ == text@.map_values(|c: char| ascii_lowercase(c)),
{
    text.to_lowercase()
}

/// Calls `u32::from_str`: reads an optional plus sign and decimal digits, and
/// refuses anything else, and numbers that need more than 32 bits, with an
/// error that depends on the text alone.
#[verifier::external_body]
pub(crate) fn parse_u32(text: &str) -> (r: Result<u32, ParseIntError>)
    ensures
        r is Ok <==> is_u32_text(text@),
        r matches Ok(n) ==> n == u32_value(text@),
        r matches Err(e) ==> e == u32_error(text@),
{
    std::str::FromStr::from_str(text)
}

} // verus!
