//! Percent-decoding of query parameters and the HTTP method grammar.

use vstd::prelude::*;

use crate::error::Error;
use crate::external::percent_decode_utf8;
use vstd::utf8::{decode_utf8, encode_utf8, valid_utf8};

verus! {

/// The characters that may make up an HTTP method: letters, digits and
/// `! * + - . ^ _ ` | ~`.
pub open spec fn is_method_char(c: char) -> bool {
    ||| ('a' <= c && c <= 'z')
    ||| ('A' <= c && c <= 'Z')
    ||| ('0' <= c && c <= '9')
    ||| c == '!' || c == '*' || c == '+' || c == '-' || c == '.'
    ||| c == '^' || c == '_' || c == '`' || c == '|' || c == '~'
}

/// A text that names an HTTP method: non-empty, of method characters only.
pub open spec fn is_method_token(text: Seq<char>) -> bool {
    &&& text.len() > 0
    &&& forall|i: int| 0 <= i < text.len() ==> is_method_char(#[trigger] text[i])
}

/// The value of a hexadecimal digit (either case), if the byte is one.
pub open spec fn hex_digit(b: u8) -> Option<u8> {
    if 0x30 <= b && b <= 0x39 {
        Some((b - 0x30) as u8)
    } else if 0x41 <= b && b <= 0x46 {
        Some((b - 0x41 + 10) as u8)
    } else if 0x61 <= b && b <= 0x66 {
        Some((b - 0x61 + 10) as u8)
    } else {
        None
    }
}

/// Percent-decoding of bytes: `%` and two hexadecimal digits stand for the
/// byte they spell; every other byte stands for itself.
pub open spec fn percent_decode(bytes: Seq<u8>) -> Seq<u8>
    decreases bytes.len(),
{
    if bytes.len() == 0 {
        seq![]
    } else if bytes[0] == 0x25u8 && bytes.len() >= 3 && hex_digit(bytes[1]) is Some
        && hex_digit(bytes[2]) is Some {
        seq![(hex_digit(bytes[1]).unwrap() * 16 + hex_digit(bytes[2]).unwrap()) as u8]
            + percent_decode(bytes.skip(3))
    } else {
        seq![bytes[0]] + percent_decode(bytes.skip(1))
    }
}

/// The upper-case hexadecimal digit for a value below 16.
pub open spec fn hex_upper(n: u8) -> u8 {
    if n < 10 {
        (0x30 + n) as u8
    } else {
        (0x41 + n - 10) as u8
    }
}

/// Percent-encoding of bytes: a byte is written as `%` and its two
/// upper-case hexadecimal digits where `escaped` chooses it, and always where
/// it is `%` or not ASCII; every other byte stands for itself.
pub open spec fn percent_encode(bytes: Seq<u8>, escaped: spec_fn(u8) -> bool) -> Seq<u8>
    decreases bytes.len(),
{
    if bytes.len() == 0 {
        seq![]
    } else {
        let b = bytes[0];
        let head = if escaped(b) || b == 0x25u8 || b >= 0x80u8 {
            seq![0x25u8, hex_upper(b / 16), hex_upper(b % 16)]
        } else {
            seq![b]
        };
        head + percent_encode(bytes.skip(1), escaped)
    }
}

/// The ASCII text whose characters are these bytes.
pub open spec fn ascii_text(bytes: Seq<u8>) -> Seq<char> {
    bytes.map_values(|b: u8| b as char)
}

/// The text that a percent-encoded text stands for, if its decoded bytes are
/// valid UTF-8.
pub open spec fn url_decoded(text: Seq<char>) -> Option<Seq<char>> {
    let bytes = percent_decode(encode_utf8(text));
    if valid_utf8(bytes) {
        Some(decode_utf8(bytes))
    } else {
        None
    }
}

/// Percent-decodes a query parameter.
pub fn url_decode(input: &str) -> (r: Result<String, Error>)
    ensures
        match url_decoded(input@) {
            Some(text) => r matches Ok(s) && s@ == text,
            None => r matches Err(Error::InvalidQueryParameterEncoding),
        },
{
    match percent_decode_utf8(input) {
        Some(q) => Ok(q),
        None => Err(Error::InvalidQueryParameterEncoding),
    }
}

} // verus!
