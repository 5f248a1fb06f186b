//! Trusted query-string encoding.
//!
//! Lyric and translation queries carry artist names, titles, and whole
//! lyric texts inside URL query parameters, so they pass through
//! `application/x-www-form-urlencoded` byte serialization: unreserved
//! bytes stay, a space becomes `+`, and every other byte becomes `%` and
//! two uppercase hex digits.

use vstd::prelude::*;
use vstd::string::*;

verus! {

/// The bytes form-urlencoding passes through unchanged: ASCII letters and
/// digits, `*`, `-`, `.`, and `_`.
pub open spec fn url_unreserved(b: u8) -> bool {
    b == 42 || b == 45 || b == 46 || (48 <= b && b <= 57) || (65 <= b && b <= 90) || b == 95 || (97
        <= b && b <= 122)
}

pub open spec fn hex_upper(d: int) -> char {
    if d == 0 {
        '0'
    } else if d == 1 {
        '1'
    } else if d == 2 {
        '2'
    } else if d == 3 {
        '3'
    } else if d == 4 {
        '4'
    } else if d == 5 {
        '5'
    } else if d == 6 {
        '6'
    } else if d == 7 {
        '7'
    } else if d == 8 {
        '8'
    } else if d == 9 {
        '9'
    } else if d == 10 {
        'A'
    } else if d == 11 {
        'B'
    } else if d == 12 {
        'C'
    } else if d == 13 {
        'D'
    } else if d == 14 {
        'E'
    } else {
        'F'
    }
}

pub open spec fn spec_urlencode_byte(b: u8) -> Seq<char> {
    if url_unreserved(b) {
        seq![b as char]
    } else if b == 32 {
        seq!['+']
    } else {
        seq!['%', hex_upper(b as int / 16), hex_upper(b as int % 16)]
    }
}

/// The form-urlencoding of a byte string.
pub open spec fn spec_urlencode(bs: Seq<u8>) -> Seq<char>
    decreases bs.len(),
{
    if bs.len() == 0 {
        Seq::empty()
    } else {
        spec_urlencode_byte(bs[0]) + spec_urlencode(bs.subrange(1, bs.len() as int))
    }
}

/// Relies on form_urlencoded::byte_serialize: unreserved bytes unchanged,
/// space to `+`, every other byte percent-encoded with uppercase hex.
#[verifier::external_body]
pub(crate) fn urlencode(s: &str) -> (r: String)
    ensures
        r@ == spec_urlencode(s.spec_bytes()),
{
    url::form_urlencoded::byte_serialize(s.as_bytes()).collect()
}

} // verus!
