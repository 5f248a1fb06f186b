//! Lyrics resolution with translation fallback.
//!
//! A track's artist and title query the lyric catalog by exact match; an
//! empty result is "no lyrics available", never an error. Synced lyrics win
//! over plain ones. When a target language is wanted, the text passes
//! through the translation service; an empty or failed translation keeps
//! the untranslated text, so translation failure never erases lyrics
//! already resolved. The module also decides when a subtitle file written
//! beside the download is embedded into the tag.

use vstd::prelude::*;
use vstd::string::*;
use vstd::utf8::encode_utf8;
use crate::encode::spec_urlencode;
use crate::encode::urlencode;
use crate::strutil::spec_ends_with;
use crate::strutil::spec_contains;
use crate::strutil::ends_with;
use crate::strutil::contains_str;
use crate::strutil::str_eq;

verus! {

/// What a lyric lookup asks for.
pub struct LyricQuery {
    pub artist: String,
    pub title: String,
    pub target_language: String,
}

/// Resolved lyrics: the text, and whether it carries per-line timing.
pub struct LyricResult {
    pub text: String,
    pub is_synced: bool,
}

#[verifier::ext_equal]
pub struct LyricResultView {
    pub text: Seq<char>,
    pub is_synced: bool,
}

impl View for LyricResult {
    type V = LyricResultView;

    open spec fn view(&self) -> LyricResultView {
        LyricResultView { text: self.text@, is_synced: self.is_synced }
    }
}

pub open spec fn spec_lyric_query_url(artist: Seq<char>, title: Seq<char>) -> Seq<char> {
    "https://lrclib.net/api/get?artist_name="@ + spec_urlencode(encode_utf8(artist))
        + "&track_name="@ + spec_urlencode(encode_utf8(title))
}

/// The lyric-catalog URL for an exact artist and title lookup.
pub fn lyric_query_url(q: &LyricQuery) -> (u: String)
    ensures
        u@ == spec_lyric_query_url(q.artist@, q.title@),
{
    let mut u = "https://lrclib.net/api/get?artist_name=".to_owned();
    u.append(urlencode(q.artist.as_str()).as_str());
    u.append("&track_name=");
    u.append(urlencode(q.title.as_str()).as_str());
    assert(u@ =~= spec_lyric_query_url(q.artist@, q.title@));
    u
}

/// The plain and synced lyric texts of a lyric-catalog response, when the
/// response is an object whose `plainLyrics` and `syncedLyrics` are both
/// strings; a function of the response text alone.
pub uninterp spec fn lyric_fields_of(body: Seq<char>) -> Option<(Seq<char>, Seq<char>)>;

/// The plain and synced lyric texts of a catalog response; `None` when the
/// response is malformed or either field is not a string.
///
/// Relies on serde_json::from_str and Value::{get, as_str}.
#[verifier::external_body]
pub fn parse_lyric_response(body: &str) -> (r: Option<(String, String)>)
    ensures
        r is Some <==> lyric_fields_of(body@) is Some,
        r matches Some(p) ==> lyric_fields_of(body@) == Some((p.0@, p.1@)),
{
    let root: serde_json::Value = serde_json::from_str(body).ok()?;
    let plain = root.get("plainLyrics")?.as_str()?.to_owned();
    let synced = root.get("syncedLyrics")?.as_str()?.to_owned();
    Some((plain, synced))
}

/// Prefer synced lyrics over plain ones; both empty means no lyrics are
/// available, which leaves the field untouched and is no error.
pub fn select_lyrics(plain: String, synced: String) -> (r: Option<LyricResult>)
    ensures
        synced@.len() > 0 ==> (r matches Some(l) && l@ == (LyricResultView {
            text: synced@,
            is_synced: true,
        })),
        synced@.len() == 0 && plain@.len() > 0 ==> (r matches Some(l) && l@ == (LyricResultView {
            text: plain@,
            is_synced: false,
        })),
        synced@.len() == 0 && plain@.len() == 0 ==> r is None,
        r matches Some(l) ==> l.text@.len() > 0,
{
    if synced.as_str().unicode_len() > 0 {
        Some(LyricResult { text: synced, is_synced: true })
    } else if plain.as_str().unicode_len() > 0 {
        Some(LyricResult { text: plain, is_synced: false })
    } else {
        None
    }
}

pub open spec fn spec_translation_url(lang: Seq<char>, text: Seq<char>) -> Seq<char> {
    "https://translate.googleapis.com/translate_a/single?client=gtx&sl=auto&tl="@ + lang
        + "&dt=t&q="@ + spec_urlencode(encode_utf8(text))
}

/// The translation-service URL for a text and target language.
pub fn translation_url(lang: &str, text: &str) -> (u: String)
    ensures
        u@ == spec_translation_url(lang@, text@),
{
    let mut u = "https://translate.googleapis.com/translate_a/single?client=gtx&sl=auto&tl="
        .to_owned();
    u.append(lang);
    u.append("&dt=t&q=");
    u.append(urlencode(text).as_str());
    assert(u@ =~= spec_translation_url(lang@, text@));
    u
}

/// How many entries the translation response's first array holds; `None`
/// when the response is malformed or its first element is no array. A
/// function of the response text alone.
pub uninterp spec fn translation_entry_count_of(body: Seq<char>) -> Option<int>;

/// The leading string of entry `k` of the translation response's first
/// array; `None` when the entry is absent or does not lead with a string.
/// A function of the response text alone.
pub uninterp spec fn translation_segment_of(body: Seq<char>, k: int) -> Option<Seq<char>>;

/// Relies on serde_json::from_str and Value::{get, as_array}: the entry
/// count of the response's first array.
#[verifier::external_body]
fn translation_entries(body: &str) -> (r: Option<usize>)
    ensures
        r matches Some(n) ==> translation_entry_count_of(body@) == Some(n as int),
        r is None ==> translation_entry_count_of(body@) is None,
{
    Some(serde_json::from_str::<serde_json::Value>(body).ok()?.get(0)?.as_array()?.len())
}

/// Relies on serde_json::from_str and Value::{get, as_str}: the leading
/// string of one entry of the response's first array.
#[verifier::external_body]
fn translation_segment(body: &str, k: usize) -> (r: Option<String>)
    ensures
        r is Some <==> translation_segment_of(body@, k as int) is Some,
        r matches Some(s) ==> translation_segment_of(body@, k as int) == Some(s@),
{
    let root: serde_json::Value = serde_json::from_str(body).ok()?;
    root.get(0)?.get(k)?.get(0)?.as_str().map(str::to_owned)
}

/// The translated text: the segments of entries `k` to `n`, in order, with
/// no separator; entries without a leading string are passed over.
pub open spec fn spec_translation_text(body: Seq<char>, k: int, n: int) -> Seq<char>
    decreases n - k when k <= n
{
    if k >= n {
        Seq::empty()
    } else {
        (match translation_segment_of(body, k) {
            Some(s) => s,
            None => Seq::empty(),
        }) + spec_translation_text(body, k + 1, n)
    }
}

/// The translated text of a translation response: the concatenation, in
/// order of appearance and with no separator, of the leading string of each
/// entry of the response's first array. `None` when the response has no
/// such shape; entries without a leading string are passed over.
pub fn parse_translation(body: &str) -> (r: Option<String>)
    ensures
        match translation_entry_count_of(body@) {
            Some(n) => r matches Some(t) && t@ == spec_translation_text(body@, 0, n),
            None => r is None,
        },
{
    let n = match translation_entries(body) {
        Some(n) => n,
        None => {
            return None;
        },
    };
    let mut text = String::new();
    let mut k: usize = 0;
    proof {
        assert(Seq::<char>::empty() + spec_translation_text(body@, 0, n as int)
            =~= spec_translation_text(body@, 0, n as int));
    }
    while k < n
        invariant
            k <= n,
            spec_translation_text(body@, 0, n as int) == text@ + spec_translation_text(
                body@,
                k as int,
                n as int,
            ),
        decreases n - k,
    {
        let ghost before = text@;
        match translation_segment(body, k) {
            Some(s) => {
                text.append(s.as_str());
            },
            None => {},
        }
        proof {
            assert(text@ + spec_translation_text(body@, k + 1, n as int) =~= before
                + spec_translation_text(body@, k as int, n as int));
        }
        k += 1;
    }
    proof {
        assert(text@ + spec_translation_text(body@, n as int, n as int) =~= text@);
    }
    Some(text)
}

/// Fold a translation outcome into resolved lyrics: a non-empty translation
/// replaces the text, anything else keeps the untranslated text. Resolved
/// lyrics are never erased by a translation failure.
pub fn apply_translation(lyric: LyricResult, translated: Option<String>) -> (r: LyricResult)
    ensures
        r.is_synced == lyric.is_synced,
        translated is Some && translated->Some_0@.len() > 0 ==> r.text@ == translated->Some_0@,
        (translated is None || translated->Some_0@.len() == 0) ==> r.text@ == lyric.text@,
        lyric.text@.len() > 0 ==> r.text@.len() > 0,
{
    match translated {
        Some(t) => {
            if t.as_str().unicode_len() > 0 {
                LyricResult { text: t, is_synced: lyric.is_synced }
            } else {
                lyric
            }
        },
        None => lyric,
    }
}

/// Whether lyrics read from a subtitle file are embedded: only when the
/// file was read and the media format carries a lyrics field (not wav).
pub fn should_embed_lyrics(format_name: &str, lyrics: &Option<String>) -> (r: bool)
    ensures
        r <==> lyrics is Some && (format_name@ == "flac"@ || format_name@ == "opus"@
            || format_name@ == "mp3"@ || format_name@ == "m4a"@),
{
    match lyrics {
        Some(_) => str_eq(format_name, "flac") || str_eq(format_name, "opus") || str_eq(
            format_name,
            "mp3",
        ) || str_eq(format_name, "m4a"),
        None => false,
    }
}

/// Whether a directory entry is the subtitle file of a track: an `.lrc`
/// name that mentions the track's base name.
pub open spec fn spec_is_lyrics_file(name: Seq<char>, base: Seq<char>) -> bool {
    spec_ends_with(name, ".lrc"@) && spec_contains(name, base)
}

/// Pick the track's subtitle file among the plain files of the target
/// directory: the last `.lrc` name that mentions the base name, as a later
/// directory entry shadows an earlier one.
pub fn pick_lyrics_file(names: &Vec<String>, base_name: &str) -> (r: Option<usize>)
    ensures
        r matches Some(i) ==> i < names@.len() && spec_is_lyrics_file(
            names.deep_view()[i as int],
            base_name@,
        ) && (forall|k: int|
            i < k < names@.len() ==> !spec_is_lyrics_file(names.deep_view()[k], base_name@)),
        r is None ==> forall|k: int|
            0 <= k < names@.len() ==> !spec_is_lyrics_file(names.deep_view()[k], base_name@),
{
    let mut i = names.len();
    while i > 0
        invariant
            i <= names@.len(),
            forall|k: int|
                i <= k < names@.len() ==> !spec_is_lyrics_file(names.deep_view()[k], base_name@),
        decreases i,
    {
        i -= 1;
        let name = &names[i];
        if ends_with(name.as_str(), ".lrc") && contains_str(name.as_str(), base_name) {
            assert(spec_is_lyrics_file(names.deep_view()[i as int], base_name@));
            return Some(i);
        }
        assert(!spec_is_lyrics_file(names.deep_view()[i as int], base_name@));
    }
    None
}

} // verus!
