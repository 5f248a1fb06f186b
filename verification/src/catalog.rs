//! Catalog matching: fuzzy recording search under a similarity gate.
//!
//! The matcher walks four phases. SEARCH takes the top candidate only when
//! its score strictly exceeds the threshold; otherwise the tag is left
//! untouched. DETAIL overwrites artist, album, year, release date, and the
//! track and disc numbers from the candidate's first release. COVER and
//! IMAGE replace the front cover. Every phase degrades to "no further
//! enrichment" on a missing or malformed response; the batch never aborts.
//!
//! The caller performs the fetches: each step hands back the next URL to
//! get, and takes the parsed response of the previous one.

use vstd::prelude::*;
use vstd::string::*;
use crate::strutil::find_from;
use crate::strutil::lemma_find_from;
use crate::strutil::spec_parse_u32;
use crate::strutil::find_char_from;
use crate::strutil::copy_range;
use crate::strutil::parse_u32;
use crate::tag::TrackTag;
use crate::tag::TrackTagView;
use crate::report::EnrichError;

verus! {

/// One search hit: a recording with its similarity score.
pub struct CatalogCandidate {
    pub recording_id: String,
    pub title: String,
    pub score: i8,
}

#[verifier::ext_equal]
pub struct CatalogCandidateView {
    pub recording_id: Seq<char>,
    pub title: Seq<char>,
    pub score: i8,
}

impl View for CatalogCandidate {
    type V = CatalogCandidateView;

    open spec fn view(&self) -> CatalogCandidateView {
        CatalogCandidateView {
            recording_id: self.recording_id@,
            title: self.title@,
            score: self.score,
        }
    }
}

impl DeepView for CatalogCandidate {
    type V = CatalogCandidateView;

    open spec fn deep_view(&self) -> CatalogCandidateView {
        self.view()
    }
}

/// The first medium of a release: disc position and track count.
#[derive(Clone, Copy, Debug, PartialEq, Eq, Structural)]
pub struct MediaInfo {
    pub position: u32,
    pub track_count: u32,
}

/// The canonical release taken for a matched recording.
pub struct ReleaseInfo {
    pub id: String,
    pub title: String,
    pub date: Option<String>,
    pub media: Option<MediaInfo>,
}

#[verifier::ext_equal]
pub struct ReleaseInfoView {
    pub id: Seq<char>,
    pub title: Seq<char>,
    pub date: Option<Seq<char>>,
    pub media: Option<MediaInfo>,
}

impl View for ReleaseInfo {
    type V = ReleaseInfoView;

    open spec fn view(&self) -> ReleaseInfoView {
        ReleaseInfoView {
            id: self.id@,
            title: self.title@,
            date: self.date.deep_view(),
            media: self.media,
        }
    }
}

impl DeepView for ReleaseInfo {
    type V = ReleaseInfoView;

    open spec fn deep_view(&self) -> ReleaseInfoView {
        self.view()
    }
}

/// What the detail fetch yields for a matched recording: the credited
/// artist, when present, and the first release, when present.
pub struct CatalogRecord {
    pub artist: Option<String>,
    pub release: Option<ReleaseInfo>,
}

#[verifier::ext_equal]
pub struct CatalogRecordView {
    pub artist: Option<Seq<char>>,
    pub release: Option<ReleaseInfoView>,
}

impl View for CatalogRecord {
    type V = CatalogRecordView;

    open spec fn view(&self) -> CatalogRecordView {
        CatalogRecordView { artist: self.artist.deep_view(), release: self.release.deep_view() }
    }
}

impl DeepView for CatalogRecord {
    type V = CatalogRecordView;

    open spec fn deep_view(&self) -> CatalogRecordView {
        self.view()
    }
}

/// A query string with each space written `%20`.
pub open spec fn spec_escape_spaces(s: Seq<char>) -> Seq<char>
    decreases s.len(),
{
    if s.len() == 0 {
        Seq::empty()
    } else {
        (if s[0] == ' ' {
            seq!['%', '2', '0']
        } else {
            seq![s[0]]
        }) + spec_escape_spaces(s.subrange(1, s.len() as int))
    }
}

/// Replace each space by `%20`, as the catalog's query syntax wants.
pub fn escape_spaces(s: &str) -> (r: String)
    ensures
        r@ == spec_escape_spaces(s@),
{
    let n = s.unicode_len();
    let mut r = String::new();
    let mut i: usize = 0;
    proof {
        assert(s@.subrange(0, n as int) =~= s@);
        assert(Seq::<char>::empty() + spec_escape_spaces(s@) =~= spec_escape_spaces(s@));
    }
    while i < n
        invariant
            i <= n,
            n == s@.len(),
            spec_escape_spaces(s@) == r@ + spec_escape_spaces(s@.subrange(i as int, n as int)),
        decreases n - i,
    {
        let ghost rest = s@.subrange(i as int, n as int);
        proof {
            assert(rest[0] == s@[i as int]);
            assert(rest.subrange(1, rest.len() as int) =~= s@.subrange(i + 1, n as int));
        }
        let ghost before = r@;
        if s.get_char(i) == ' ' {
            proof {
                reveal_strlit("%20");
            }
            r.append("%20");
            assert(r@ =~= before + seq!['%', '2', '0']);
        } else {
            let piece = s.substring_char(i, i + 1);
            assert(piece@ =~= seq![s@[i as int]]);
            r.append(piece);
        }
        proof {
            assert(r@ + spec_escape_spaces(s@.subrange(i + 1, n as int)) =~= before
                + spec_escape_spaces(rest));
        }
        i += 1;
    }
    proof {
        assert(s@.subrange(n as int, n as int) =~= Seq::<char>::empty());
        assert(r@ + spec_escape_spaces(Seq::<char>::empty()) =~= r@);
    }
    r
}

pub open spec fn spec_search_url(title: Seq<char>, artist: Seq<char>) -> Seq<char> {
    "https://musicbrainz.org/ws/2/recording?query="@ + spec_escape_spaces(title)
        + "%20AND%20artist:"@ + spec_escape_spaces(artist) + "&fmt=json"@
}

/// The recording-search URL for a title and artist.
pub fn search_url(title: &str, artist: &str) -> (u: String)
    ensures
        u@ == spec_search_url(title@, artist@),
{
    let mut u = "https://musicbrainz.org/ws/2/recording?query=".to_owned();
    u.append(escape_spaces(title).as_str());
    u.append("%20AND%20artist:");
    u.append(escape_spaces(artist).as_str());
    u.append("&fmt=json");
    assert(u@ =~= spec_search_url(title@, artist@));
    u
}

pub open spec fn spec_detail_url(recording_id: Seq<char>) -> Seq<char> {
    "https://musicbrainz.org/ws/2/recording/"@ + recording_id
        + "?inc=artist-credits+isrcs+releases+release-groups+discids&fmt=json"@
}

/// The recording-detail URL for a matched recording.
pub fn detail_url(recording_id: &str) -> (u: String)
    ensures
        u@ == spec_detail_url(recording_id@),
{
    let mut u = "https://musicbrainz.org/ws/2/recording/".to_owned();
    u.append(recording_id);
    u.append("?inc=artist-credits+isrcs+releases+release-groups+discids&fmt=json");
    assert(u@ =~= spec_detail_url(recording_id@));
    u
}

pub open spec fn spec_cover_url(release_id: Seq<char>) -> Seq<char> {
    "https://coverartarchive.org/release/"@ + release_id
}

/// The cover-art manifest URL for a release.
pub fn cover_url(release_id: &str) -> (u: String)
    ensures
        u@ == spec_cover_url(release_id@),
{
    let mut u = "https://coverartarchive.org/release/".to_owned();
    u.append(release_id);
    assert(u@ =~= spec_cover_url(release_id@));
    u
}

/// The year a release date names: the digits before the first dash, as when
/// the date reads year-month-day. A non-numeric or oversized year yields
/// `None`, and the field is then left unset rather than failing.
pub open spec fn spec_year_of_date(d: Seq<char>) -> Option<u32> {
    spec_parse_u32(d.subrange(0, find_from(d, '-', 0)))
}

pub fn year_of_date(date: &str) -> (r: Option<u32>)
    ensures
        r == spec_year_of_date(date@),
{
    proof {
        lemma_find_from(date@, '-', 0);
    }
    let i = find_char_from(date, '-', 0);
    let digits = copy_range(date, 0, i);
    parse_u32(digits.as_str())
}

/// How many entries the search response's `recordings` array holds; `None`
/// when the response is malformed or carries no such array. A function of
/// the response text alone.
pub uninterp spec fn recording_count_of(body: Seq<char>) -> Option<int>;

/// The `id`, `title`, and `score` of entry `k` of the search response's
/// `recordings` array; `None` when the entry is absent or a field is
/// missing or of the wrong kind. A function of the response text alone.
pub uninterp spec fn recording_of(body: Seq<char>, k: int) -> Option<(Seq<char>, Seq<char>, i64)>;

/// Relies on serde_json::from_str and Value::{get, as_array}: the entry
/// count of the response's `recordings` array.
#[verifier::external_body]
fn recording_count(body: &str) -> (r: Option<usize>)
    ensures
        r matches Some(n) ==> recording_count_of(body@) == Some(n as int),
        r is None ==> recording_count_of(body@) is None,
{
    Some(serde_json::from_str::<serde_json::Value>(body).ok()?.get("recordings")?.as_array()?.len())
}

/// Relies on serde_json::from_str and Value::{get, as_str, as_i64}: the id,
/// title, and score of one entry of the response's `recordings` array.
#[verifier::external_body]
fn recording_entry(body: &str, k: usize) -> (r: Option<(String, String, i64)>)
    ensures
        r is Some <==> recording_of(body@, k as int) is Some,
        r matches Some(e) ==> recording_of(body@, k as int) == Some((e.0@, e.1@, e.2)),
{
    let root: serde_json::Value = serde_json::from_str(body).ok()?;
    let item = root.get("recordings")?.get(k)?;
    let id = item.get("id")?.as_str()?.to_owned();
    let title = item.get("title")?.as_str()?.to_owned();
    Some((id, title, item.get("score")?.as_i64()?))
}

/// The candidate one recordings entry yields: its score must fit the 0-100
/// scale's type; any other score marks the response malformed.
pub open spec fn spec_candidate(e: (Seq<char>, Seq<char>, i64)) -> Option<CatalogCandidateView> {
    if -128 <= e.2 <= 127 {
        Some(CatalogCandidateView { recording_id: e.0, title: e.1, score: e.2 as i8 })
    } else {
        None
    }
}

/// The candidates of entries `k` to `n` of the search response, in order;
/// `None` as soon as one entry is missing a field or out of scale.
pub open spec fn spec_candidates_from(body: Seq<char>, k: int, n: int) -> Option<
    Seq<CatalogCandidateView>,
>
    decreases n - k when k <= n
{
    if k >= n {
        Some(Seq::empty())
    } else {
        match recording_of(body, k) {
            None => None,
            Some(e) => match spec_candidate(e) {
                None => None,
                Some(c) => match spec_candidates_from(body, k + 1, n) {
                    Some(rest) => Some(seq![c] + rest),
                    None => None,
                },
            },
        }
    }
}

/// What a whole search response yields: all candidates of its `recordings`
/// array, in order, or `None` when the response is malformed.
pub open spec fn spec_search_candidates(body: Seq<char>) -> Option<Seq<CatalogCandidateView>> {
    match recording_count_of(body) {
        None => None,
        Some(n) => spec_candidates_from(body, 0, n),
    }
}

/// The candidates of a search response: the `recordings` array, each with
/// `id`, `title`, and `score`. A malformed response, or one missing a
/// required field, yields `None`; the matcher then leaves the tag alone.
pub fn parse_search_response(body: &str) -> (r: Option<Vec<CatalogCandidate>>)
    ensures
        r.deep_view() == spec_search_candidates(body@),
{
    let n = match recording_count(body) {
        Some(n) => n,
        None => {
            return None;
        },
    };
    let mut out: Vec<CatalogCandidate> = Vec::new();
    let mut k: usize = 0;
    proof {
        assert(out.deep_view() =~= Seq::<CatalogCandidateView>::empty());
    }
    while k < n
        invariant
            k <= n,
            recording_count_of(body@) == Some(n as int),
            spec_candidates_from(body@, k as int, n as int) matches Some(rest)
                ==> spec_search_candidates(body@) == Some(out.deep_view() + rest),
            spec_candidates_from(body@, k as int, n as int) is None
                ==> spec_search_candidates(body@) is None,
        decreases n - k,
    {
        let e = match recording_entry(body, k) {
            Some(e) => e,
            None => {
                return None;
            },
        };
        if e.2 < -128 || e.2 > 127 {
            return None;
        }
        let c = CatalogCandidate { recording_id: e.0, title: e.1, score: e.2 as i8 };
        let ghost before = out.deep_view();
        out.push(c);
        proof {
            match spec_candidates_from(body@, k + 1, n as int) {
                Some(rest) => {
                    assert(out.deep_view() + rest =~= before + (seq![c.deep_view()] + rest));
                },
                None => {},
            }
        }
        k += 1;
    }
    proof {
        assert(out.deep_view() + Seq::<CatalogCandidateView>::empty() =~= out.deep_view());
    }
    Some(out)
}

/// Whether the detail response is well-formed JSON at all; a function of
/// the response text alone.
pub uninterp spec fn detail_parses(body: Seq<char>) -> bool;

/// The name of the first credited artist of a detail response; `None` when
/// no artist credit with a string name is present. A function of the
/// response text alone.
pub uninterp spec fn detail_artist_of(body: Seq<char>) -> Option<Seq<char>>;

/// The `id` and `title` of the first release of a detail response; `None`
/// when no release with both strings is listed. A function of the response
/// text alone.
pub uninterp spec fn detail_release_of(body: Seq<char>) -> Option<(Seq<char>, Seq<char>)>;

/// The `date` string of the first release of a detail response, when it
/// carries one. A function of the response text alone.
pub uninterp spec fn detail_date_of(body: Seq<char>) -> Option<Seq<char>>;

/// The `position` and `track-count` of the first medium of the first
/// release of a detail response, when both are non-negative integers. A
/// function of the response text alone.
pub uninterp spec fn detail_medium_of(body: Seq<char>) -> Option<(u64, u64)>;

/// Relies on serde_json::from_str: whether the response is well-formed JSON.
#[verifier::external_body]
fn detail_body_parses(body: &str) -> (r: bool)
    ensures
        r == detail_parses(body@),
{
    serde_json::from_str::<serde_json::Value>(body).is_ok()
}

/// Relies on serde_json::from_str and Value::{get, as_str}: the name of the
/// first entry of the response's `artist-credit` array.
#[verifier::external_body]
fn detail_artist(body: &str) -> (r: Option<String>)
    ensures
        r is Some <==> detail_artist_of(body@) is Some,
        r matches Some(a) ==> detail_artist_of(body@) == Some(a@),
{
    let root: serde_json::Value = serde_json::from_str(body).ok()?;
    root.get("artist-credit")?.get(0)?.get("name")?.as_str().map(str::to_owned)
}

/// Relies on serde_json::from_str and Value::{get, as_str}: the id and
/// title of the first entry of the response's `releases` array.
#[verifier::external_body]
fn detail_release(body: &str) -> (r: Option<(String, String)>)
    ensures
        r is Some <==> detail_release_of(body@) is Some,
        r matches Some(p) ==> detail_release_of(body@) == Some((p.0@, p.1@)),
{
    let root: serde_json::Value = serde_json::from_str(body).ok()?;
    let rel = root.get("releases")?.get(0)?;
    Some((rel.get("id")?.as_str()?.to_owned(), rel.get("title")?.as_str()?.to_owned()))
}

/// Relies on serde_json::from_str and Value::{get, as_str}: the date of the
/// first entry of the response's `releases` array.
#[verifier::external_body]
fn detail_date(body: &str) -> (r: Option<String>)
    ensures
        r is Some <==> detail_date_of(body@) is Some,
        r matches Some(d) ==> detail_date_of(body@) == Some(d@),
{
    let root: serde_json::Value = serde_json::from_str(body).ok()?;
    root.get("releases")?.get(0)?.get("date")?.as_str().map(str::to_owned)
}

/// Relies on serde_json::from_str and Value::{get, as_u64}: the position
/// and track count of the first medium of the response's first release.
#[verifier::external_body]
fn detail_medium(body: &str) -> (r: Option<(u64, u64)>)
    ensures
        r == detail_medium_of(body@),
{
    let root: serde_json::Value = serde_json::from_str(body).ok()?;
    let medium = root.get("releases")?.get(0)?.get("media")?.get(0)?;
    Some((medium.get("position")?.as_u64()?, medium.get("track-count")?.as_u64()?))
}

/// What a whole detail response yields: the first credited artist and the
/// first release, each when present and well-kinded; a numeric field that
/// does not fit its type is left unset, not treated as fatal.
pub open spec fn spec_detail_record(body: Seq<char>) -> Option<CatalogRecordView> {
    if !detail_parses(body) {
        None
    } else {
        Some(
            CatalogRecordView {
                artist: detail_artist_of(body),
                release: match detail_release_of(body) {
                    None => None,
                    Some((id, title)) => Some(
                        ReleaseInfoView {
                            id,
                            title,
                            date: detail_date_of(body),
                            media: match detail_medium_of(body) {
                                Some((p, t)) => if p <= u32::MAX && t <= u32::MAX {
                                    Some(MediaInfo { position: p as u32, track_count: t as u32 })
                                } else {
                                    None
                                },
                                None => None,
                            },
                        },
                    ),
                },
            },
        )
    }
}

/// The record a detail response describes: the first credited artist, when
/// any is credited, and the first release, when any is listed. A malformed
/// response yields `None`; the matcher then stops enriching this file.
pub fn parse_detail_response(body: &str) -> (r: Option<CatalogRecord>)
    ensures
        r.deep_view() == spec_detail_record(body@),
{
    if !detail_body_parses(body) {
        return None;
    }
    let artist = detail_artist(body);
    let release = match detail_release(body) {
        None => None,
        Some((id, title)) => {
            let date = detail_date(body);
            let media = match detail_medium(body) {
                Some((p, t)) => {
                    if p <= u32::MAX as u64 && t <= u32::MAX as u64 {
                        Some(MediaInfo { position: p as u32, track_count: t as u32 })
                    } else {
                        None
                    }
                },
                None => None,
            };
            Some(ReleaseInfo { id, title, date, media })
        },
    };
    let r = Some(CatalogRecord { artist, release });
    proof {
        assert(spec_detail_record(body@) is Some);
        assert(r->Some_0.deep_view() =~= spec_detail_record(body@)->Some_0);
    }
    r
}

/// The URL of the first image a cover-art manifest lists, when the manifest
/// is an object whose `images` array leads with an entry carrying a string
/// `image`; a function of the manifest text alone.
pub uninterp spec fn cover_image_url_of(body: Seq<char>) -> Option<Seq<char>>;

/// The URL of the first cover image a cover-art manifest lists, when any.
/// Any malformed or empty manifest yields `None`: a cover lookup failure is
/// swallowed and never blocks the rest of enrichment.
///
/// Relies on serde_json::from_str and Value::{get, as_str}.
#[verifier::external_body]
pub fn parse_cover_response(body: &str) -> (r: Option<String>)
    ensures
        r is Some <==> cover_image_url_of(body@) is Some,
        r matches Some(u) ==> cover_image_url_of(body@) == Some(u@),
{
    let root: serde_json::Value = serde_json::from_str(body).ok()?;
    root.get("images")?.get(0)?.get("image")?.as_str().map(str::to_owned)
}

/// Whether the match is accepted: a top candidate exists and its score
/// strictly exceeds the threshold. A score merely equal to the threshold is
/// not enough.
pub open spec fn spec_accepts(threshold: i8, cs: Option<Seq<CatalogCandidateView>>) -> bool {
    cs matches Some(s) && s.len() > 0 && s[0].score > threshold
}

/// The tag after the detail record is applied: artist overwritten when one
/// is credited; album, release date, year, and track and disc numbers
/// overwritten from the first release when one is listed. The year comes
/// from the release date and stays unset when it does not parse.
pub open spec fn spec_apply_record(t: TrackTagView, rec: CatalogRecordView) -> TrackTagView {
    let t1 = match rec.artist {
        Some(a) => TrackTagView { artist: Some(a), ..t },
        None => t,
    };
    match rec.release {
        None => t1,
        Some(rel) => {
            let t2 = TrackTagView { album: Some(rel.title), ..t1 };
            let t3 = match rel.date {
                Some(d) => TrackTagView {
                    release_date: Some(d),
                    year: match spec_year_of_date(d) {
                        Some(y) => Some(y),
                        None => t2.year,
                    },
                    ..t2
                },
                None => t2,
            };
            match rel.media {
                Some(m) => TrackTagView {
                    track_no: Some(m.position),
                    disc_no: Some(m.position),
                    track_total: Some(m.track_count),
                    disc_total: Some(m.track_count),
                    ..t3
                },
                None => t3,
            }
        },
    }
}

#[derive(Clone, Copy, Debug, PartialEq, Eq, Structural)]
pub enum MatchPhase {
    Search,
    Detail,
    Cover,
    Image,
    Finished,
}

/// One matching attempt for one file, phase by phase.
pub struct CatalogMatcher {
    pub phase: MatchPhase,
    pub threshold: i8,
    pub matched: bool,
}

impl CatalogMatcher {
    pub fn new(threshold: i8) -> (m: Self)
        ensures
            m.phase == MatchPhase::Search,
            m.threshold == threshold,
            !m.matched,
    {
        CatalogMatcher { phase: MatchPhase::Search, threshold, matched: false }
    }

    /// Judge the search response. When the top candidate's score strictly
    /// exceeds the threshold, its title goes into the tag and the detail
    /// URL comes back; any weaker or absent candidate leaves the tag
    /// exactly as it was and ends the attempt.
    pub fn on_search(&mut self, tag: &mut TrackTag, candidates: &Option<Vec<CatalogCandidate>>)
        -> (next: Option<String>)
        requires
            old(self).phase == MatchPhase::Search,
        ensures
            final(self).threshold == old(self).threshold,
            spec_accepts(old(self).threshold, candidates.deep_view()) ==> {
                &&& final(self).phase == MatchPhase::Detail
                &&& final(self).matched
                &&& final(tag)@ == TrackTagView {
                    title: Some(candidates.deep_view()->Some_0[0].title),
                    ..old(tag)@
                }
                &&& next matches Some(u) && u@ == spec_detail_url(
                    candidates.deep_view()->Some_0[0].recording_id,
                )
            },
            !spec_accepts(old(self).threshold, candidates.deep_view()) ==> {
                &&& final(self).phase == MatchPhase::Finished
                &&& !final(self).matched
                &&& final(tag)@ == old(tag)@
                &&& next is None
            },
    {
        match candidates {
            Some(cs) => {
                if cs.len() > 0 {
                    let top = &cs[0];
                    proof {
                        assert(candidates.deep_view()->Some_0[0] == cs[0]@);
                    }
                    if top.score > self.threshold {
                        self.phase = MatchPhase::Detail;
                        self.matched = true;
                        tag.title = Some(top.title.clone());
                        let u = detail_url(top.recording_id.as_str());
                        assert(tag@ =~= TrackTagView {
                            title: Some(candidates.deep_view()->Some_0[0].title),
                            ..old(tag)@
                        });
                        return Some(u);
                    }
                }
            },
            None => {},
        }
        self.phase = MatchPhase::Finished;
        self.matched = false;
        None
    }

    /// Apply the detail record to the tag and hand back the cover-manifest
    /// URL when the record lists a release. A missing record leaves the tag
    /// as the search phase left it and ends the attempt.
    pub fn on_detail(&mut self, tag: &mut TrackTag, record: &Option<CatalogRecord>) -> (next:
        Option<String>)
        requires
            old(self).phase == MatchPhase::Detail,
        ensures
            final(self).threshold == old(self).threshold,
            final(self).matched == old(self).matched,
            match record.deep_view() {
                None => {
                    &&& final(tag)@ == old(tag)@
                    &&& next is None
                    &&& final(self).phase == MatchPhase::Finished
                },
                Some(rec) => {
                    &&& final(tag)@ == spec_apply_record(old(tag)@, rec)
                    &&& (rec.release matches Some(rel) ==> {
                        &&& next matches Some(u) && u@ == spec_cover_url(rel.id)
                        &&& final(self).phase == MatchPhase::Cover
                    })
                    &&& (rec.release is None ==> next is None && final(self).phase
                        == MatchPhase::Finished)
                },
            },
    {
        match record {
            Some(rec) => {
                if let Some(artist) = &rec.artist {
                    tag.artist = Some(artist.clone());
                }
                match &rec.release {
                    Some(rel) => {
                        tag.album = Some(rel.title.clone());
                        if let Some(date) = &rel.date {
                            tag.release_date = Some(date.clone());
                            match year_of_date(date.as_str()) {
                                Some(y) => {
                                    tag.year = Some(y);
                                },
                                None => {},
                            }
                        }
                        if let Some(m) = &rel.media {
                            tag.track_no = Some(m.position);
                            tag.disc_no = Some(m.position);
                            tag.track_total = Some(m.track_count);
                            tag.disc_total = Some(m.track_count);
                        }
                        self.phase = MatchPhase::Cover;
                        let u = cover_url(rel.id.as_str());
                        assert(tag@ =~= spec_apply_record(old(tag)@, record.deep_view()->Some_0));
                        Some(u)
                    },
                    None => {
                        self.phase = MatchPhase::Finished;
                        assert(tag@ =~= spec_apply_record(old(tag)@, record.deep_view()->Some_0));
                        None
                    },
                }
            },
            None => {
                self.phase = MatchPhase::Finished;
                None
            },
        }
    }

    /// Step past the cover manifest: hand back the image URL it names, or
    /// end the attempt when the lookup failed. Either way the tag is not
    /// touched: a cover failure is swallowed.
    pub fn on_cover(&mut self, image_url: &Option<String>) -> (next: Option<String>)
        requires
            old(self).phase == MatchPhase::Cover,
        ensures
            final(self).threshold == old(self).threshold,
            final(self).matched == old(self).matched,
            image_url matches Some(u) ==> {
                &&& next matches Some(n) && n@ == u@
                &&& final(self).phase == MatchPhase::Image
            },
            image_url is None ==> next is None && final(self).phase == MatchPhase::Finished,
    {
        match image_url {
            Some(u) => {
                self.phase = MatchPhase::Image;
                Some(u.clone())
            },
            None => {
                self.phase = MatchPhase::Finished;
                None
            },
        }
    }

    /// Take the fetched cover image: it replaces any front cover already in
    /// the tag, so no duplicate art entry remains. A failed image fetch
    /// changes nothing.
    pub fn on_image(&mut self, tag: &mut TrackTag, data: Option<Vec<u8>>)
        requires
            old(self).phase == MatchPhase::Image,
        ensures
            final(self).threshold == old(self).threshold,
            final(self).matched == old(self).matched,
            final(self).phase == MatchPhase::Finished,
            match data {
                Some(bytes) => final(tag)@ == TrackTagView {
                    cover_image: Some(bytes@),
                    ..old(tag)@
                },
                None => final(tag)@ == old(tag)@,
            },
    {
        match data {
            Some(bytes) => {
                let ghost b = bytes@;
                tag.cover_image = Some(bytes);
                assert(tag@ =~= TrackTagView { cover_image: Some(b), ..old(tag)@ });
            },
            None => {},
        }
        self.phase = MatchPhase::Finished;
    }

    /// The attempt's outcome: a confident match, or the tag was left alone.
    pub fn outcome(&self) -> (r: Result<(), EnrichError>)
        requires
            self.phase == MatchPhase::Finished,
        ensures
            r is Ok <==> self.matched,
            r is Err ==> r->Err_0 == EnrichError::NoConfidentMatch,
    {
        if self.matched {
            Ok(())
        } else {
            Err(EnrichError::NoConfidentMatch)
        }
    }
}

} // verus!
