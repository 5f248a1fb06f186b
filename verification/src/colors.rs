//! Hex color text: parsing `#RRGGBB` input and writing it back.

use vstd::prelude::*;
use vstd::string::*;
use crate::encode::hex_upper;
use crate::strutil::copy_range;

verus! {

pub open spec fn is_hex_digit(c: char) -> bool {
    ('0' <= c && c <= '9') || ('a' <= c && c <= 'f') || ('A' <= c && c <= 'F')
}

pub open spec fn hex_digit_val(c: char) -> int {
    if '0' <= c && c <= '9' {
        c as int - '0' as int
    } else if 'a' <= c && c <= 'f' {
        c as int - 'a' as int + 10
    } else {
        c as int - 'A' as int + 10
    }
}

pub open spec fn all_hex_digits(s: Seq<char>) -> bool {
    forall|k: int| 0 <= k < s.len() ==> is_hex_digit(#[trigger] s[k])
}

/// The number the hex digit string `s` denotes.
pub open spec fn hex_digits_val(s: Seq<char>) -> int
    decreases s.len(),
{
    if s.len() == 0 {
        0
    } else {
        hex_digits_val(s.drop_last()) * 16 + hex_digit_val(s.last())
    }
}

proof fn lemma_hex_digits_val_nonneg(s: Seq<char>)
    requires
        all_hex_digits(s),
    ensures
        hex_digits_val(s) >= 0,
    decreases s.len(),
{
    if s.len() > 0 {
        assert(all_hex_digits(s.drop_last()));
        lemma_hex_digits_val_nonneg(s.drop_last());
    }
}

proof fn lemma_hex_digits_val_prefix_bound(s: Seq<char>, i: int)
    requires
        all_hex_digits(s),
        0 <= i <= s.len(),
    ensures
        hex_digits_val(s) >= hex_digits_val(s.subrange(0, i)),
    decreases s.len() - i,
{
    lemma_hex_digits_val_nonneg(s.subrange(0, i));
    if i < s.len() {
        lemma_hex_digits_val_prefix_bound(s, i + 1);
        let p = s.subrange(0, i + 1);
        assert(p.drop_last() =~= s.subrange(0, i));
        assert(hex_digits_val(p) == hex_digits_val(s.subrange(0, i)) * 16 + hex_digit_val(s[i]));
    } else {
        assert(s.subrange(0, i) =~= s);
    }
}

/// Index of the first character of `s` that is not `c`, or the length.
pub open spec fn first_not(s: Seq<char>, c: char, from: int) -> int
    decreases s.len() - from when 0 <= from <= s.len()
{
    if from >= s.len() {
        s.len() as int
    } else if s[from] != c {
        from
    } else {
        first_not(s, c, from + 1)
    }
}

/// The value of `s` read as hex digits: `None` unless `s` is one or more
/// hex digits whose value fits in a `u32`.
pub open spec fn spec_parse_hex_u32(s: Seq<char>) -> Option<u32> {
    if s.len() > 0 && all_hex_digits(s) && hex_digits_val(s) <= u32::MAX {
        Some(hex_digits_val(s) as u32)
    } else {
        None
    }
}

pub fn parse_hex_u32(s: &str) -> (r: Option<u32>)
    ensures
        r == spec_parse_hex_u32(s@),
{
    let n = s.unicode_len();
    if n == 0 {
        return None;
    }
    let mut acc: u64 = 0;
    let mut i: usize = 0;
    while i < n
        invariant
            i <= n,
            n == s@.len(),
            all_hex_digits(s@.subrange(0, i as int)),
            acc == hex_digits_val(s@.subrange(0, i as int)),
            acc <= u32::MAX,
        decreases n - i,
    {
        let c = s.get_char(i);
        let d: u32 = if c >= '0' && c <= '9' {
            (c as u32) - ('0' as u32)
        } else if c >= 'a' && c <= 'f' {
            (c as u32) - ('a' as u32) + 10
        } else if c >= 'A' && c <= 'F' {
            (c as u32) - ('A' as u32) + 10
        } else {
            return None;
        };
        let ghost pre = s@.subrange(0, i as int);
        let ghost post = s@.subrange(0, i + 1 as int);
        proof {
            assert(post.drop_last() =~= pre);
            assert(post.last() == s@[i as int]);
        }
        acc = acc * 16 + (d as u64);
        i += 1;
        if acc > u32::MAX as u64 {
            proof {
                if all_hex_digits(s@) {
                    lemma_hex_digits_val_prefix_bound(s@, i as int);
                }
                assert(s@.subrange(0, s@.len() as int) =~= s@);
            }
            return None;
        }
    }
    proof {
        assert(s@.subrange(0, n as int) =~= s@);
    }
    Some(acc as u32)
}

/// The red, green, and blue bytes of a packed color value.
pub open spec fn spec_rgb_of(v: u32) -> (u8, u8, u8) {
    (((v >> 16) & 0xFF) as u8, ((v >> 8) & 0xFF) as u8, (v & 0xFF) as u8)
}

/// The color hex input names: leading `#` marks shed, the rest read as hex
/// digits, and the low three bytes taken as red, green, and blue.
pub open spec fn spec_parse_hex_color(s: Seq<char>) -> Option<(u8, u8, u8)> {
    let t = s.subrange(first_not(s, '#', 0), s.len() as int);
    match spec_parse_hex_u32(t) {
        Some(v) => Some(spec_rgb_of(v)),
        None => None,
    }
}

/// Where the leading `#` marks of hex input end.
fn skip_hash_marks(s: &str) -> (r: usize)
    ensures
        r == first_not(s@, '#', 0),
        r <= s@.len(),
{
    let n = s.unicode_len();
    let mut i: usize = 0;
    loop
        invariant
            i <= n,
            n == s@.len(),
            first_not(s@, '#', 0) == first_not(s@, '#', i as int),
        decreases n - i,
    {
        if i >= n {
            return i;
        }
        if s.get_char(i) != '#' {
            return i;
        }
        i += 1;
    }
}

pub fn parse_hex_color(hex: &str) -> (r: Option<(u8, u8, u8)>)
    ensures
        r == spec_parse_hex_color(hex@),
{
    let n = hex.unicode_len();
    let start = skip_hash_marks(hex);
    let digits = copy_range(hex, start, n);
    match parse_hex_u32(digits.as_str()) {
        Some(v) => {
            proof {
                assert((v >> 16) & 0xFF <= 0xFF && (v >> 8) & 0xFF <= 0xFF && v & 0xFF <= 0xFF)
                    by (bit_vector);
            }
            let red = ((v >> 16) & 0xFF) as u8;
            let green = ((v >> 8) & 0xFF) as u8;
            let blue = (v & 0xFF) as u8;
            Some((red, green, blue))
        },
        None => None,
    }
}

fn hex_digit_str(d: u32) -> (r: &'static str)
    requires
        d < 16,
    ensures
        r@ == seq![hex_upper(d as int)],
{
    proof {
        reveal_strlit("0");
        reveal_strlit("1");
        reveal_strlit("2");
        reveal_strlit("3");
        reveal_strlit("4");
        reveal_strlit("5");
        reveal_strlit("6");
        reveal_strlit("7");
        reveal_strlit("8");
        reveal_strlit("9");
        reveal_strlit("A");
        reveal_strlit("B");
        reveal_strlit("C");
        reveal_strlit("D");
        reveal_strlit("E");
        reveal_strlit("F");
    }
    let r = if d == 0 {
        "0"
    } else if d == 1 {
        "1"
    } else if d == 2 {
        "2"
    } else if d == 3 {
        "3"
    } else if d == 4 {
        "4"
    } else if d == 5 {
        "5"
    } else if d == 6 {
        "6"
    } else if d == 7 {
        "7"
    } else if d == 8 {
        "8"
    } else if d == 9 {
        "9"
    } else if d == 10 {
        "A"
    } else if d == 11 {
        "B"
    } else if d == 12 {
        "C"
    } else if d == 13 {
        "D"
    } else if d == 14 {
        "E"
    } else {
        "F"
    };
    assert(r@ =~= seq![hex_upper(d as int)]);
    r
}

/// A byte as two uppercase hex digits.
pub open spec fn spec_hex_byte(b: u8) -> Seq<char> {
    seq![hex_upper(b as int / 16), hex_upper(b as int % 16)]
}

/// The hex text of a color: `#` and two uppercase hex digits per channel.
pub open spec fn spec_hex_of_rgb(red: u8, green: u8, blue: u8) -> Seq<char> {
    seq!['#'] + spec_hex_byte(red) + spec_hex_byte(green) + spec_hex_byte(blue)
}

pub fn hex_of_rgb(red: u8, green: u8, blue: u8) -> (r: String)
    ensures
        r@ == spec_hex_of_rgb(red, green, blue),
{
    proof {
        reveal_strlit("#");
    }
    let mut r = "#".to_owned();
    r.append(hex_digit_str((red as u32) / 16));
    r.append(hex_digit_str((red as u32) % 16));
    r.append(hex_digit_str((green as u32) / 16));
    r.append(hex_digit_str((green as u32) % 16));
    r.append(hex_digit_str((blue as u32) / 16));
    r.append(hex_digit_str((blue as u32) % 16));
    assert(r@ =~= spec_hex_of_rgb(red, green, blue));
    r
}

} // verus!
