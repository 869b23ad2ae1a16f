//! Percent-encoding of mask images into `data:` URIs.
//!
//! The rectangle-based masking strategies inline their vector image into a
//! CSS `mask` property, which needs the image percent-encoded.  The exact
//! byte-for-byte behaviour of the encoder is specified here, so the final
//! URI appears verbatim in the strategies' contracts.

use vstd::prelude::*;
use vstd::string::StringExecFns;
use vstd::string::StringSliceAdditionalSpecFns;

verus! {

/// Bytes the percent-encoder passes through unchanged: ASCII alphanumerics
/// and `-`, `.`, `_`, `~`.
pub open spec fn is_url_safe_byte(b: u8) -> bool {
    ||| 0x30 <= b <= 0x39  // '0' ..= '9'
    ||| 0x41 <= b <= 0x5a  // 'A' ..= 'Z'
    ||| 0x61 <= b <= 0x7a  // 'a' ..= 'z'
    ||| b == 0x2d  // '-'
    ||| b == 0x2e  // '.'
    ||| b == 0x5f  // '_'
    ||| b == 0x7e  // '~'
}

/// The upper-case hexadecimal digit character for `d` in `0..16`.
pub open spec fn hex_digit_char(d: int) -> char {
    if d < 10 {
        crate::text::digit_char(d)
    } else if d == 10 {
        'A'
    } else if d == 11 {
        'B'
    } else if d == 12 {
        'C'
    } else if d == 13 {
        'D'
    } else if d == 14 {
        'E'
    } else {
        'F'
    }
}

/// How one byte is percent-encoded: safe bytes stand for themselves,
/// every other byte becomes `%` and two upper-case hex digits.
pub open spec fn spec_encode_byte(b: u8) -> Seq<char> {
    if is_url_safe_byte(b) {
        seq![b as char]
    } else {
        seq!['%', hex_digit_char((b >> 4) as int), hex_digit_char((b & 0xF) as int)]
    }
}

/// The percent-encoding of a whole byte sequence.
pub open spec fn spec_percent_encode(bytes: Seq<u8>) -> Seq<char>
    decreases bytes.len(),
{
    if bytes.len() == 0 {
        Seq::empty()
    } else {
        spec_percent_encode(bytes.drop_last()) + spec_encode_byte(bytes.last())
    }
}

/// Relies on `urlencoding::encode`: percent-encodes every UTF-8 byte of the
/// input except ASCII alphanumerics and `-`, `.`, `_`, `~`, writing `%` and
/// two upper-case hexadecimal digits for each encoded byte.
#[verifier::external_body]
fn percent_encode(s: &str) -> (r: String)
    ensures
        r@ == spec_percent_encode(s.spec_bytes()),
{
    urlencoding::encode(s).into_owned()
}

/// The `data:` URI carrying an inline percent-encoded SVG image.
pub open spec fn spec_data_uri(svg: Seq<char>) -> Seq<char> {
    "data:image/svg+xml,"@ + spec_percent_encode(vstd::utf8::encode_utf8(svg))
}

/// Encodes an SVG image as a `data:` URI usable in a CSS `mask` property.
pub fn encode_data_uri(svg: &str) -> (r: String)
    ensures
        r@ == spec_data_uri(svg@),
{
    let mut out = String::from_str("data:image/svg+xml,");
    let encoded = percent_encode(svg);
    out.append(encoded.as_str());
    out
}

} // verus!
