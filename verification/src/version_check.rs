//! Release version comparison.
//!
//! The running version is compared component by component against the
//! newest released one: the first differing component decides, and equal
//! prefixes decide nothing. The release tag text is parsed here; fetching
//! it stays with the caller.

use vstd::prelude::*;
use vstd::string::*;
use crate::strutil::spec_split;
use crate::strutil::spec_parse_i8;
use crate::strutil::split_on_char;
use crate::strutil::parse_i8;

verus! {

/// Whether the current version is ahead of the released one: the first
/// differing component decides (`Some(true)` when ahead, `Some(false)` when
/// behind); versions equal over their common length decide nothing.
pub open spec fn spec_version_cmp(cur: Seq<i8>, git: Seq<i8>) -> Option<bool>
    decreases cur.len(),
{
    if cur.len() == 0 || git.len() == 0 {
        None
    } else if cur[0] < git[0] {
        Some(false)
    } else if cur[0] > git[0] {
        Some(true)
    } else {
        spec_version_cmp(cur.subrange(1, cur.len() as int), git.subrange(1, git.len() as int))
    }
}

/// Compare the current version against the released one, when one is known.
pub fn match_version(cur_ver: Vec<i8>, git_ver: Option<Vec<i8>>) -> (r: Option<bool>)
    ensures
        r == match git_ver {
            Some(g) => spec_version_cmp(cur_ver@, g@),
            None => None::<bool>,
        },
{
    match &git_ver {
        None => None,
        Some(g) => {
            let mut i: usize = 0;
            proof {
                assert(cur_ver@.subrange(0, cur_ver@.len() as int) =~= cur_ver@);
                assert(g@.subrange(0, g@.len() as int) =~= g@);
            }
            while i < cur_ver.len() && i < g.len()
                invariant
                    git_ver is Some,
                    g@ == git_ver->Some_0@,
                    i <= cur_ver@.len(),
                    i <= g@.len(),
                    spec_version_cmp(cur_ver@, g@) == spec_version_cmp(
                        cur_ver@.subrange(i as int, cur_ver@.len() as int),
                        g@.subrange(i as int, g@.len() as int),
                    ),
                decreases cur_ver@.len() - i,
            {
                let ghost rc = cur_ver@.subrange(i as int, cur_ver@.len() as int);
                let ghost rg = g@.subrange(i as int, g@.len() as int);
                proof {
                    assert(rc[0] == cur_ver@[i as int]);
                    assert(rg[0] == g@[i as int]);
                    assert(rc.subrange(1, rc.len() as int) =~= cur_ver@.subrange(
                        i + 1,
                        cur_ver@.len() as int,
                    ));
                    assert(rg.subrange(1, rg.len() as int) =~= g@.subrange(i + 1, g@.len() as int));
                }
                if cur_ver[i] < g[i] {
                    assert(spec_version_cmp(rc, rg) == Some(false));
                    return Some(false);
                } else if cur_ver[i] > g[i] {
                    assert(spec_version_cmp(rc, rg) == Some(true));
                    return Some(true);
                }
                i += 1;
            }
            None
        },
    }
}

/// The numeric update check outcome the caller's status cell holds: ahead
/// of the newest release is positive, behind is negative, unknown or equal
/// is zero.
pub fn version_outcome(cur_ver: Vec<i8>, git_ver: Option<Vec<i8>>) -> (r: i8)
    ensures
        r == match (match git_ver {
            Some(g) => spec_version_cmp(cur_ver@, g@),
            None => None::<bool>,
        }) {
            Some(true) => 1int,
            Some(false) => -1int,
            None => 0int,
        },
{
    match match_version(cur_ver, git_ver) {
        Some(true) => 1,
        Some(false) => -1,
        None => 0,
    }
}

/// The text with every occurrence of one character shed.
pub open spec fn spec_remove_char(s: Seq<char>, c: char) -> Seq<char>
    decreases s.len(),
{
    if s.len() == 0 {
        Seq::empty()
    } else {
        (if s[0] == c {
            Seq::empty()
        } else {
            seq![s[0]]
        }) + spec_remove_char(s.subrange(1, s.len() as int), c)
    }
}

pub fn remove_char(s: &str, c: char) -> (r: String)
    ensures
        r@ == spec_remove_char(s@, c),
{
    let n = s.unicode_len();
    let mut r = String::new();
    let mut i: usize = 0;
    proof {
        assert(s@.subrange(0, n as int) =~= s@);
        assert(Seq::<char>::empty() + spec_remove_char(s@, c) =~= spec_remove_char(s@, c));
    }
    while i < n
        invariant
            i <= n,
            n == s@.len(),
            spec_remove_char(s@, c) == r@ + spec_remove_char(s@.subrange(i as int, n as int), c),
        decreases n - i,
    {
        let ghost rest = s@.subrange(i as int, n as int);
        proof {
            assert(rest[0] == s@[i as int]);
            assert(rest.subrange(1, rest.len() as int) =~= s@.subrange(i + 1, n as int));
        }
        let ghost before = r@;
        if s.get_char(i) != c {
            let piece = s.substring_char(i, i + 1);
            assert(piece@ =~= seq![s@[i as int]]);
            r.append(piece);
        }
        proof {
            assert(r@ + spec_remove_char(s@.subrange(i + 1, n as int), c) =~= before
                + spec_remove_char(rest, c));
        }
        i += 1;
    }
    proof {
        assert(s@.subrange(n as int, n as int) =~= Seq::<char>::empty());
        assert(r@ + spec_remove_char(Seq::<char>::empty(), c) =~= r@);
    }
    r
}

/// The version a release tag names: the tag with any `v` shed, read as
/// dot-separated numeric components. A component that is not a number
/// yields `None`.
pub open spec fn spec_parse_version(tag: Seq<char>) -> Option<Seq<i8>> {
    let parts = spec_split(spec_remove_char(tag, 'v'), '.');
    if forall|k: int| 0 <= k < parts.len() ==> (#[trigger] spec_parse_i8(parts[k])) is Some {
        Some(Seq::new(parts.len(), |k: int| spec_parse_i8(parts[k])->Some_0))
    } else {
        None
    }
}

pub fn parse_version_tag(tag: &str) -> (r: Option<Vec<i8>>)
    ensures
        r.deep_view() == spec_parse_version(tag@),
{
    let cleaned = remove_char(tag, 'v');
    let parts = split_on_char(cleaned.as_str(), '.');
    let ghost pv = parts.deep_view();
    let mut out: Vec<i8> = Vec::new();
    let mut i: usize = 0;
    while i < parts.len()
        invariant
            i <= parts@.len(),
            pv == parts.deep_view(),
            pv == spec_split(spec_remove_char(tag@, 'v'), '.'),
            out@.len() == i,
            forall|k: int| 0 <= k < i ==> (#[trigger] spec_parse_i8(pv[k])) is Some,
            forall|k: int| 0 <= k < i ==> out@[k] == spec_parse_i8(pv[k])->Some_0,
        decreases parts@.len() - i,
    {
        proof {
            assert(pv[i as int] == parts.deep_view()[i as int]);
        }
        match parse_i8(parts[i].as_str()) {
            Some(v) => {
                out.push(v);
            },
            None => {
                assert(spec_parse_i8(pv[i as int]) is None);
                return None;
            },
        }
        i += 1;
    }
    proof {
        assert(out.deep_view() =~= Seq::new(pv.len(), |k: int| spec_parse_i8(pv[k])->Some_0));
    }
    Some(out)
}

} // verus!
