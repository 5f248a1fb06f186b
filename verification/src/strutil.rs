//! Verified string helpers.
//!
//! Everything here is stated over `Seq<char>` views: searching for a
//! character, prefix/suffix/substring tests, splitting on a separator, and
//! conversions between integers and their decimal text.

use vstd::prelude::*;
use vstd::string::*;

verus! {

/// First position at or after `from` where `c` occurs in `s`; `s.len()` if none.
pub open spec fn find_from(s: Seq<char>, c: char, from: int) -> int
    decreases s.len() - from when 0 <= from <= s.len()
{
    if from >= s.len() {
        s.len() as int
    } else if s[from] == c {
        from
    } else {
        find_from(s, c, from + 1)
    }
}

pub proof fn lemma_find_from(s: Seq<char>, c: char, from: int)
    requires
        0 <= from <= s.len(),
    ensures
        from <= find_from(s, c, from) <= s.len(),
        find_from(s, c, from) < s.len() ==> s[find_from(s, c, from)] == c,
        forall|k: int| from <= k < find_from(s, c, from) ==> s[k] != c,
    decreases s.len() - from,
{
    if from < s.len() && s[from] != c {
        lemma_find_from(s, c, from + 1);
    }
}

/// Position of the first occurrence of `c` in `s` at or after `from`,
/// or the length of `s` when there is none.
pub fn find_char_from(s: &str, c: char, from: usize) -> (r: usize)
    requires
        from <= s@.len(),
    ensures
        r == find_from(s@, c, from as int),
{
    let n = s.unicode_len();
    let mut i = from;
    while i < n
        invariant
            from <= i <= n,
            n == s@.len(),
            find_from(s@, c, from as int) == find_from(s@, c, i as int),
        decreases n - i,
    {
        if s.get_char(i) == c {
            return i;
        }
        i += 1;
    }
    i
}

/// Position of the last occurrence of `c` in `s`, or `None`.
pub fn rfind_char(s: &str, c: char) -> (r: Option<usize>)
    ensures
        r matches Some(i) ==> i < s@.len() && s@[i as int] == c && (forall|k: int|
            i < k < s@.len() ==> s@[k] != c),
        r is None ==> forall|k: int| 0 <= k < s@.len() ==> s@[k] != c,
{
    let n = s.unicode_len();
    let mut i = n;
    while i > 0
        invariant
            i <= n,
            n == s@.len(),
            forall|k: int| i <= k < s@.len() ==> s@[k] != c,
        decreases i,
    {
        i -= 1;
        if s.get_char(i) == c {
            return Some(i);
        }
    }
    None
}

pub open spec fn spec_starts_with(s: Seq<char>, p: Seq<char>) -> bool {
    p.len() <= s.len() && s.subrange(0, p.len() as int) == p
}

pub open spec fn spec_ends_with(s: Seq<char>, p: Seq<char>) -> bool {
    p.len() <= s.len() && s.subrange(s.len() - p.len(), s.len() as int) == p
}

/// Whether `p` occurs in `s` starting at position `at`.
pub open spec fn spec_matches_at(s: Seq<char>, p: Seq<char>, at: int) -> bool {
    0 <= at && at + p.len() <= s.len() && s.subrange(at, at + p.len()) == p
}

pub open spec fn spec_contains(s: Seq<char>, p: Seq<char>) -> bool {
    exists|at: int| spec_matches_at(s, p, at)
}

/// Whether `p` occurs in `s` at position `at`.
pub fn matches_at(s: &str, p: &str, at: usize) -> (r: bool)
    requires
        at <= s@.len(),
    ensures
        r == spec_matches_at(s@, p@, at as int),
{
    let np = p.unicode_len();
    let ns = s.unicode_len();
    if np > ns - at {
        return false;
    }
    let mut i: usize = 0;
    while i < np
        invariant
            i <= np,
            np == p@.len(),
            ns == s@.len(),
            at + np <= ns,
            forall|k: int| 0 <= k < i ==> s@[at + k] == p@[k],
        decreases np - i,
    {
        if s.get_char(at + i) != p.get_char(i) {
            assert(s@.subrange(at as int, at + np) != p@) by {
                assert(s@.subrange(at as int, at + np)[i as int] == s@[at + i]);
            }
            return false;
        }
        i += 1;
    }
    assert(s@.subrange(at as int, at + np) =~= p@);
    true
}

pub fn starts_with(s: &str, p: &str) -> (r: bool)
    ensures
        r == spec_starts_with(s@, p@),
{
    if p.unicode_len() > s.unicode_len() {
        return false;
    }
    matches_at(s, p, 0)
}

pub fn ends_with(s: &str, p: &str) -> (r: bool)
    ensures
        r == spec_ends_with(s@, p@),
{
    let np = p.unicode_len();
    let ns = s.unicode_len();
    if np > ns {
        return false;
    }
    matches_at(s, p, ns - np)
}

/// Whether `p` occurs anywhere in `s`.
pub fn contains_str(s: &str, p: &str) -> (r: bool)
    ensures
        r == spec_contains(s@, p@),
{
    let np = p.unicode_len();
    let ns = s.unicode_len();
    if np > ns {
        assert(forall|at: int| !spec_matches_at(s@, p@, at));
        return false;
    }
    if np == 0 {
        assert(s@.subrange(0, 0) =~= p@);
        assert(spec_matches_at(s@, p@, 0));
        return true;
    }
    let mut at: usize = 0;
    while at <= ns - np
        invariant
            np == p@.len(),
            ns == s@.len(),
            0 < np <= ns,
            at <= ns - np + 1,
            forall|k: int| 0 <= k < at ==> !spec_matches_at(s@, p@, k),
        decreases ns - np + 1 - at,
    {
        if matches_at(s, p, at) {
            return true;
        }
        at += 1;
    }
    assert(forall|k: int| !spec_matches_at(s@, p@, k));
    false
}

pub fn str_eq(a: &str, b: &str) -> (r: bool)
    ensures
        r == (a@ == b@),
{
    let na = a.unicode_len();
    if na != b.unicode_len() {
        return false;
    }
    if matches_at(a, b, 0) {
        assert(a@.subrange(0, a@.len() as int) =~= a@);
        true
    } else {
        assert(a@.subrange(0, a@.len() as int) =~= a@);
        false
    }
}

/// A copy of `s` between character positions `from` and `to`.
pub fn copy_range(s: &str, from: usize, to: usize) -> (r: String)
    requires
        from <= to <= s@.len(),
    ensures
        r@ == s@.subrange(from as int, to as int),
{
    s.substring_char(from, to).to_owned()
}

/// The pieces of `s` between occurrences of the separator `c`; the
/// separator itself is dropped, and `n` separators yield `n + 1` pieces.
pub open spec fn spec_split(s: Seq<char>, c: char) -> Seq<Seq<char>>
    decreases s.len(),
{
    let i = find_from(s, c, 0);
    if 0 <= i < s.len() {
        seq![s.subrange(0, i)] + spec_split(s.subrange(i + 1, s.len() as int), c)
    } else {
        seq![s]
    }
}

proof fn lemma_find_from_shift(s: Seq<char>, c: char, cur: int)
    requires
        0 <= cur <= s.len(),
    ensures
        find_from(s, c, cur) - cur == find_from(s.subrange(cur, s.len() as int), c, 0),
{
    let tail = s.subrange(cur, s.len() as int);
    lemma_find_from(s, c, cur);
    lemma_find_from(tail, c, 0);
    let i = find_from(s, c, cur);
    let j = find_from(tail, c, 0);
    if i < s.len() {
        assert(tail[i - cur] == c);
        assert(j <= i - cur);
    }
    if j < tail.len() {
        assert(s[cur + j] == c);
        assert(i <= cur + j);
    }
}

pub fn split_on_char(s: &str, c: char) -> (parts: Vec<String>)
    ensures
        parts.deep_view() == spec_split(s@, c),
{
    let n = s.unicode_len();
    let mut parts: Vec<String> = Vec::new();
    let mut cur: usize = 0;
    proof {
        assert(s@.subrange(0, s@.len() as int) =~= s@);
        assert(parts.deep_view() =~= Seq::<Seq<char>>::empty());
        assert(parts.deep_view() + spec_split(s@, c) =~= spec_split(s@, c));
    }
    loop
        invariant
            cur <= n,
            n == s@.len(),
            spec_split(s@, c) == parts.deep_view() + spec_split(
                s@.subrange(cur as int, n as int),
                c,
            ),
        decreases n - cur,
    {
        let ghost tail = s@.subrange(cur as int, n as int);
        let i = find_char_from(s, c, cur);
        proof {
            lemma_find_from(s@, c, cur as int);
            lemma_find_from_shift(s@, c, cur as int);
        }
        let piece = copy_range(s, cur, i);
        let ghost before = parts.deep_view();
        parts.push(piece);
        assert(parts.deep_view() =~= before.push(piece@));
        if i == n {
            proof {
                assert(tail =~= s@.subrange(cur as int, n as int));
                assert(find_from(tail, c, 0) == tail.len());
                assert(spec_split(tail, c) == seq![tail]);
                assert(piece@ =~= tail);
                assert(parts.deep_view() =~= before + spec_split(tail, c));
            }
            return parts;
        }
        proof {
            let j = find_from(tail, c, 0);
            assert(0 <= j < tail.len());
            assert(spec_split(tail, c) == seq![tail.subrange(0, j)] + spec_split(
                tail.subrange(j + 1, tail.len() as int),
                c,
            ));
            assert(piece@ =~= tail.subrange(0, j));
            assert(tail.subrange(j + 1, tail.len() as int) =~= s@.subrange(
                i + 1,
                n as int,
            ));
            assert(parts.deep_view() + spec_split(s@.subrange(i + 1, n as int), c)
                =~= before + spec_split(tail, c));
        }
        cur = i + 1;
    }
}

pub open spec fn dec_digit(d: int) -> char {
    if d == 0 {
        '0'
    } else if d == 1 {
        '1'
    } else if d == 2 {
        '2'
    } else if d == 3 {
        '3'
    } else if d == 4 {
        '4'
    } else if d == 5 {
        '5'
    } else if d == 6 {
        '6'
    } else if d == 7 {
        '7'
    } else if d == 8 {
        '8'
    } else {
        '9'
    }
}

/// Decimal text of `n`, most significant digit first, no leading zeros.
pub open spec fn spec_u32_string(n: int) -> Seq<char>
    decreases n,
{
    if n < 10 {
        seq![dec_digit(n)]
    } else {
        spec_u32_string(n / 10) + seq![dec_digit(n % 10)]
    }
}

fn digit_str(d: u32) -> (r: &'static str)
    requires
        d < 10,
    ensures
        r@ == seq![dec_digit(d as int)],
{
    proof {
        reveal_strlit("0");
        reveal_strlit("1");
        reveal_strlit("2");
        reveal_strlit("3");
        reveal_strlit("4");
        reveal_strlit("5");
        reveal_strlit("6");
        reveal_strlit("7");
        reveal_strlit("8");
        reveal_strlit("9");
    }
    let r = if d == 0 {
        "0"
    } else if d == 1 {
        "1"
    } else if d == 2 {
        "2"
    } else if d == 3 {
        "3"
    } else if d == 4 {
        "4"
    } else if d == 5 {
        "5"
    } else if d == 6 {
        "6"
    } else if d == 7 {
        "7"
    } else if d == 8 {
        "8"
    } else {
        "9"
    };
    assert(r@ =~= seq![dec_digit(d as int)]);
    r
}

pub fn u32_to_string(n: u32) -> (r: String)
    ensures
        r@ == spec_u32_string(n as int),
    decreases n,
{
    if n < 10 {
        digit_str(n).to_owned()
    } else {
        let high = u32_to_string(n / 10);
        let r = high.concat(digit_str(n % 10));
        assert(r@ =~= spec_u32_string(n as int));
        r
    }
}

/// Decimal text of `n`, with a leading minus sign when `n` is negative.
pub open spec fn spec_i8_string(n: int) -> Seq<char> {
    if n < 0 {
        seq!['-'] + spec_u32_string(-n)
    } else {
        spec_u32_string(n)
    }
}

pub fn i8_to_string(n: i8) -> (r: String)
    ensures
        r@ == spec_i8_string(n as int),
{
    if n < 0 {
        let mag = (-(n as i32)) as u32;
        proof {
            reveal_strlit("-");
        }
        let r = "-".to_owned().concat(u32_to_string(mag).as_str());
        assert(r@ =~= spec_i8_string(n as int));
        r
    } else {
        u32_to_string(n as u32)
    }
}

pub open spec fn is_digit(c: char) -> bool {
    '0' <= c && c <= '9'
}

pub open spec fn digit_val(c: char) -> int {
    c as int - '0' as int
}

pub open spec fn all_digits(s: Seq<char>) -> bool {
    forall|k: int| 0 <= k < s.len() ==> is_digit(#[trigger] s[k])
}

/// The number the digit string `s` denotes.
pub open spec fn digits_val(s: Seq<char>) -> int
    decreases s.len(),
{
    if s.len() == 0 {
        0
    } else {
        digits_val(s.drop_last()) * 10 + digit_val(s.last())
    }
}

proof fn lemma_digits_val_nonneg(s: Seq<char>)
    requires
        all_digits(s),
    ensures
        digits_val(s) >= 0,
    decreases s.len(),
{
    if s.len() > 0 {
        assert(all_digits(s.drop_last()));
        lemma_digits_val_nonneg(s.drop_last());
    }
}

proof fn lemma_digits_val_prefix_bound(s: Seq<char>, i: int)
    requires
        all_digits(s),
        0 <= i <= s.len(),
    ensures
        digits_val(s) >= digits_val(s.subrange(0, i)),
    decreases s.len() - i,
{
    lemma_digits_val_nonneg(s.subrange(0, i));
    if i < s.len() {
        lemma_digits_val_prefix_bound(s, i + 1);
        let p = s.subrange(0, i + 1);
        assert(p.drop_last() =~= s.subrange(0, i));
        assert(digits_val(p) == digits_val(s.subrange(0, i)) * 10 + digit_val(s[i]));
    } else {
        assert(s.subrange(0, i) =~= s);
    }
}

/// The value of `s` read as an unsigned decimal number: `None` unless `s`
/// is one or more digits whose value fits in a `u32`.
pub open spec fn spec_parse_u32(s: Seq<char>) -> Option<u32> {
    if s.len() > 0 && all_digits(s) && digits_val(s) <= u32::MAX {
        Some(digits_val(s) as u32)
    } else {
        None
    }
}

pub fn parse_u32(s: &str) -> (r: Option<u32>)
    ensures
        r == spec_parse_u32(s@),
{
    let n = s.unicode_len();
    if n == 0 {
        return None;
    }
    let mut acc: u64 = 0;
    let mut i: usize = 0;
    while i < n
        invariant
            i <= n,
            n == s@.len(),
            all_digits(s@.subrange(0, i as int)),
            acc == digits_val(s@.subrange(0, i as int)),
            acc <= u32::MAX,
        decreases n - i,
    {
        let c = s.get_char(i);
        if c < '0' || c > '9' {
            return None;
        }
        let d = (c as u32) - ('0' as u32);
        let ghost pre = s@.subrange(0, i as int);
        let ghost post = s@.subrange(0, i + 1 as int);
        proof {
            assert(post.drop_last() =~= pre);
            assert(post.last() == s@[i as int]);
        }
        acc = acc * 10 + (d as u64);
        i += 1;
        if acc > u32::MAX as u64 {
            proof {
                if all_digits(s@) {
                    lemma_digits_val_prefix_bound(s@, i as int);
                }
                assert(s@.subrange(0, s@.len() as int) =~= s@);
            }
            return None;
        }
    }
    proof {
        assert(s@.subrange(0, n as int) =~= s@);
    }
    Some(acc as u32)
}

/// The value of `s` read as a signed decimal number fitting in an `i8`:
/// an optional leading minus sign, then digits.
pub open spec fn spec_parse_i8(s: Seq<char>) -> Option<i8> {
    if s.len() > 0 && s[0] == '-' {
        let tail = s.subrange(1, s.len() as int);
        if tail.len() > 0 && all_digits(tail) && digits_val(tail) <= 128 {
            Some((-digits_val(tail)) as i8)
        } else {
            None
        }
    } else if s.len() > 0 && all_digits(s) && digits_val(s) <= 127 {
        Some(digits_val(s) as i8)
    } else {
        None
    }
}

pub fn parse_i8(s: &str) -> (r: Option<i8>)
    ensures
        r == spec_parse_i8(s@),
{
    let n = s.unicode_len();
    if n == 0 {
        return None;
    }
    if s.get_char(0) == '-' {
        let tail = copy_range(s, 1, n);
        proof {
            if all_digits(tail@) {
                lemma_digits_val_nonneg(tail@);
            }
        }
        match parse_u32(tail.as_str()) {
            Some(v) => {
                if v <= 128 {
                    let r = (-(v as i32)) as i8;
                    assert(r as int == -(v as int));
                    Some(r)
                } else {
                    None
                }
            },
            None => None,
        }
    } else {
        proof {
            if all_digits(s@) {
                lemma_digits_val_nonneg(s@);
            }
        }
        match parse_u32(s) {
            Some(v) => {
                if v <= 127 {
                    Some(v as i8)
                } else {
                    None
                }
            },
            None => None,
        }
    }
}

} // verus!
