//! The two encodings the payment requests use: Base64 for the Basic
//! authorization of the API, and percent-encoding for checkout URLs.
use base64::Engine;
use vstd::prelude::*;
use vstd::utf8::encode_utf8;

verus! {

/// The character of a six-bit value in the standard Base64 alphabet:
/// `A`-`Z`, `a`-`z`, `0`-`9`, `+`, `/`.
pub open spec fn base64_char(v: nat) -> char {
    if v < 26 {
        ((65 + v) as u32) as char
    } else if v < 52 {
        ((97 + v - 26) as u32) as char
    } else if v < 62 {
        ((48 + v - 52) as u32) as char
    } else if v == 62 {
        '+'
    } else {
        '/'
    }
}

/// Standard Base64 (RFC 4648, section 4) of a byte sequence: each group of
/// three bytes gives four characters, six bits each, most significant first;
/// a last group of one or two bytes is padded with zero bits and `=`.
pub open spec fn base64_standard(bytes: Seq<u8>) -> Seq<char>
    decreases bytes.len(),
{
    if bytes.len() == 0 {
        Seq::empty()
    } else if bytes.len() == 1 {
        let b0 = bytes[0] as nat;
        seq![base64_char(b0 / 4), base64_char((b0 % 4) * 16), '=', '=']
    } else if bytes.len() == 2 {
        let b0 = bytes[0] as nat;
        let b1 = bytes[1] as nat;
        seq![
            base64_char(b0 / 4),
            base64_char((b0 % 4) * 16 + b1 / 16),
            base64_char((b1 % 16) * 4),
            '=',
        ]
    } else {
        let b0 = bytes[0] as nat;
        let b1 = bytes[1] as nat;
        let b2 = bytes[2] as nat;
        seq![
            base64_char(b0 / 4),
            base64_char((b0 % 4) * 16 + b1 / 16),
            base64_char((b1 % 16) * 4 + b2 / 64),
            base64_char(b2 % 64),
        ] + base64_standard(bytes.subrange(3, bytes.len() as int))
    }
}

/// `base64::engine::general_purpose::STANDARD.encode` applied to the UTF-8
/// bytes of `data`: their standard Base64 with padding. Inputs whose encoded
/// length would overflow `usize` (where the crate panics) are excluded.
#[verifier::external_body]
pub(crate) fn base64_encode(data: &str) -> (r: String)
    requires
        data.len() < usize::MAX / 2,
    ensures
        r@ == base64_standard(encode_utf8(data@)),
{
    base64::engine::general_purpose::STANDARD.encode(data.as_bytes())
}

/// Bytes left as they are by percent-encoding: ASCII letters and digits and
/// `-`, `.`, `_`, `~`.
pub open spec fn url_safe_byte(b: u8) -> bool {
    (48 <= b <= 57) || (65 <= b <= 90) || (97 <= b <= 122) || b == 45 || b == 46 || b == 95
        || b == 126
}

/// Upper-case hexadecimal digit of a value below sixteen.
pub open spec fn hex_upper(d: nat) -> char {
    if d < 10 {
        ((48 + d) as u32) as char
    } else {
        ((55 + d) as u32) as char
    }
}

/// Percent-encoding of a byte sequence: each byte that is not URL-safe becomes
/// `%` and its two upper-case hexadecimal digits.
pub open spec fn percent_encoded(bytes: Seq<u8>) -> Seq<char>
    decreases bytes.len(),
{
    if bytes.len() == 0 {
        Seq::empty()
    } else {
        let b = bytes.last();
        percent_encoded(bytes.drop_last()) + if url_safe_byte(b) {
            seq![(b as u32) as char]
        } else {
            seq!['%', hex_upper((b / 16) as nat), hex_upper((b % 16) as nat)]
        }
    }
}

/// `urlencoding::encode`: percent-encodes every UTF-8 byte of `data` except
/// ASCII alphanumerics and `-`, `_`, `.`, `~`, with upper-case hexadecimal
/// digits, as the crate's documentation and source show.
#[verifier::external_body]
pub(crate) fn url_encode(data: &str) -> (r: String)
    ensures
        r@ == percent_encoded(encode_utf8(data@)),
{
    urlencoding::encode(data).into_owned()
}

} // verus!
