//! In-memory projection of an audio file's tag container.
//!
//! A `TrackTag` holds the fields the enrichment pipeline reads and writes.
//! The caller loads it from the on-disk container, hands it to the lyrics
//! and catalog stages, and commits it back only when at least one field
//! changed. Setting a field with a value of the wrong kind (for instance
//! text into a numeric field) leaves the tag untouched rather than failing.

use vstd::prelude::*;

verus! {

pub struct TrackTag {
    pub title: Option<String>,
    pub artist: Option<String>,
    pub album: Option<String>,
    pub year: Option<u32>,
    pub release_date: Option<String>,
    pub track_no: Option<u32>,
    pub track_total: Option<u32>,
    pub disc_no: Option<u32>,
    pub disc_total: Option<u32>,
    pub lyrics: Option<String>,
    pub cover_image: Option<Vec<u8>>,
}

#[verifier::ext_equal]
pub struct TrackTagView {
    pub title: Option<Seq<char>>,
    pub artist: Option<Seq<char>>,
    pub album: Option<Seq<char>>,
    pub year: Option<u32>,
    pub release_date: Option<Seq<char>>,
    pub track_no: Option<u32>,
    pub track_total: Option<u32>,
    pub disc_no: Option<u32>,
    pub disc_total: Option<u32>,
    pub lyrics: Option<Seq<char>>,
    pub cover_image: Option<Seq<u8>>,
}

impl View for TrackTag {
    type V = TrackTagView;

    open spec fn view(&self) -> TrackTagView {
        TrackTagView {
            title: self.title.deep_view(),
            artist: self.artist.deep_view(),
            album: self.album.deep_view(),
            year: self.year,
            release_date: self.release_date.deep_view(),
            track_no: self.track_no,
            track_total: self.track_total,
            disc_no: self.disc_no,
            disc_total: self.disc_total,
            lyrics: self.lyrics.deep_view(),
            cover_image: self.cover_image.deep_view(),
        }
    }
}

pub open spec fn spec_empty_tag() -> TrackTagView {
    TrackTagView {
        title: None,
        artist: None,
        album: None,
        year: None,
        release_date: None,
        track_no: None,
        track_total: None,
        disc_no: None,
        disc_total: None,
        lyrics: None,
        cover_image: None,
    }
}

#[derive(Clone, Copy, Debug, PartialEq, Eq, Structural)]
pub enum TagKey {
    Title,
    Artist,
    Album,
    Year,
    ReleaseDate,
    TrackNo,
    TrackTotal,
    DiscNo,
    DiscTotal,
    Lyrics,
    CoverImage,
}

pub enum TagValue {
    Text(String),
    Number(u32),
    Image(Vec<u8>),
}

#[verifier::ext_equal]
pub enum TagValueView {
    Text(Seq<char>),
    Number(u32),
    Image(Seq<u8>),
}

impl View for TagValue {
    type V = TagValueView;

    open spec fn view(&self) -> TagValueView {
        match self {
            TagValue::Text(s) => TagValueView::Text(s@),
            TagValue::Number(n) => TagValueView::Number(*n),
            TagValue::Image(b) => TagValueView::Image(b@),
        }
    }
}

/// Whether a value's kind matches what the keyed field holds: text for the
/// text fields, a number for year and track/disc counts, an image for the
/// cover.
pub open spec fn value_fits_key(k: TagKey, v: TagValueView) -> bool {
    match k {
        TagKey::Title | TagKey::Artist | TagKey::Album | TagKey::ReleaseDate
            | TagKey::Lyrics => v is Text,
        TagKey::Year | TagKey::TrackNo | TagKey::TrackTotal | TagKey::DiscNo
            | TagKey::DiscTotal => v is Number,
        TagKey::CoverImage => v is Image,
    }
}

/// The tag after writing `v` into the field keyed `k`; a value of the wrong
/// kind leaves the tag unchanged.
pub open spec fn spec_set_field(t: TrackTagView, k: TagKey, v: TagValueView) -> TrackTagView {
    if !value_fits_key(k, v) {
        t
    } else {
        match k {
            TagKey::Title => TrackTagView { title: Some(v->Text_0), ..t },
            TagKey::Artist => TrackTagView { artist: Some(v->Text_0), ..t },
            TagKey::Album => TrackTagView { album: Some(v->Text_0), ..t },
            TagKey::Year => TrackTagView { year: Some(v->Number_0), ..t },
            TagKey::ReleaseDate => TrackTagView { release_date: Some(v->Text_0), ..t },
            TagKey::TrackNo => TrackTagView { track_no: Some(v->Number_0), ..t },
            TagKey::TrackTotal => TrackTagView { track_total: Some(v->Number_0), ..t },
            TagKey::DiscNo => TrackTagView { disc_no: Some(v->Number_0), ..t },
            TagKey::DiscTotal => TrackTagView { disc_total: Some(v->Number_0), ..t },
            TagKey::Lyrics => TrackTagView { lyrics: Some(v->Text_0), ..t },
            TagKey::CoverImage => TrackTagView { cover_image: Some(v->Image_0), ..t },
        }
    }
}

/// The value currently held by the field keyed `k`.
pub open spec fn spec_get_field(t: TrackTagView, k: TagKey) -> Option<TagValueView> {
    match k {
        TagKey::Title => match t.title {
            Some(s) => Some(TagValueView::Text(s)),
            None => None,
        },
        TagKey::Artist => match t.artist {
            Some(s) => Some(TagValueView::Text(s)),
            None => None,
        },
        TagKey::Album => match t.album {
            Some(s) => Some(TagValueView::Text(s)),
            None => None,
        },
        TagKey::Year => match t.year {
            Some(n) => Some(TagValueView::Number(n)),
            None => None,
        },
        TagKey::ReleaseDate => match t.release_date {
            Some(s) => Some(TagValueView::Text(s)),
            None => None,
        },
        TagKey::TrackNo => match t.track_no {
            Some(n) => Some(TagValueView::Number(n)),
            None => None,
        },
        TagKey::TrackTotal => match t.track_total {
            Some(n) => Some(TagValueView::Number(n)),
            None => None,
        },
        TagKey::DiscNo => match t.disc_no {
            Some(n) => Some(TagValueView::Number(n)),
            None => None,
        },
        TagKey::DiscTotal => match t.disc_total {
            Some(n) => Some(TagValueView::Number(n)),
            None => None,
        },
        TagKey::Lyrics => match t.lyrics {
            Some(s) => Some(TagValueView::Text(s)),
            None => None,
        },
        TagKey::CoverImage => match t.cover_image {
            Some(b) => Some(TagValueView::Image(b)),
            None => None,
        },
    }
}

impl TrackTag {
    /// A tag with no fields set, as when the container holds no tag block.
    pub fn new() -> (t: Self)
        ensures
            t@ == spec_empty_tag(),
    {
        TrackTag {
            title: None,
            artist: None,
            album: None,
            year: None,
            release_date: None,
            track_no: None,
            track_total: None,
            disc_no: None,
            disc_total: None,
            lyrics: None,
            cover_image: None,
        }
    }

    /// Write `value` into the field keyed `key`; a value of the wrong kind
    /// leaves every field as it was.
    pub fn set_field(&mut self, key: TagKey, value: TagValue)
        ensures
            final(self)@ == spec_set_field(old(self)@, key, value@),
    {
        match key {
            TagKey::Title => {
                if let TagValue::Text(s) = value {
                    self.title = Some(s);
                }
            },
            TagKey::Artist => {
                if let TagValue::Text(s) = value {
                    self.artist = Some(s);
                }
            },
            TagKey::Album => {
                if let TagValue::Text(s) = value {
                    self.album = Some(s);
                }
            },
            TagKey::Year => {
                if let TagValue::Number(n) = value {
                    self.year = Some(n);
                }
            },
            TagKey::ReleaseDate => {
                if let TagValue::Text(s) = value {
                    self.release_date = Some(s);
                }
            },
            TagKey::TrackNo => {
                if let TagValue::Number(n) = value {
                    self.track_no = Some(n);
                }
            },
            TagKey::TrackTotal => {
                if let TagValue::Number(n) = value {
                    self.track_total = Some(n);
                }
            },
            TagKey::DiscNo => {
                if let TagValue::Number(n) = value {
                    self.disc_no = Some(n);
                }
            },
            TagKey::DiscTotal => {
                if let TagValue::Number(n) = value {
                    self.disc_total = Some(n);
                }
            },
            TagKey::Lyrics => {
                if let TagValue::Text(s) = value {
                    self.lyrics = Some(s);
                }
            },
            TagKey::CoverImage => {
                if let TagValue::Image(b) = value {
                    self.cover_image = Some(b);
                }
            },
        }
    }

    /// Read the field keyed `key`.
    pub fn get_field(&self, key: TagKey) -> (r: Option<TagValue>)
        ensures
            r is Some <==> spec_get_field(self@, key) is Some,
            r matches Some(v) ==> spec_get_field(self@, key) == Some(v@),
    {
        match key {
            TagKey::Title => match &self.title {
                Some(s) => Some(TagValue::Text(s.clone())),
                None => None,
            },
            TagKey::Artist => match &self.artist {
                Some(s) => Some(TagValue::Text(s.clone())),
                None => None,
            },
            TagKey::Album => match &self.album {
                Some(s) => Some(TagValue::Text(s.clone())),
                None => None,
            },
            TagKey::Year => match &self.year {
                Some(n) => Some(TagValue::Number(*n)),
                None => None,
            },
            TagKey::ReleaseDate => match &self.release_date {
                Some(s) => Some(TagValue::Text(s.clone())),
                None => None,
            },
            TagKey::TrackNo => match &self.track_no {
                Some(n) => Some(TagValue::Number(*n)),
                None => None,
            },
            TagKey::TrackTotal => match &self.track_total {
                Some(n) => Some(TagValue::Number(*n)),
                None => None,
            },
            TagKey::DiscNo => match &self.disc_no {
                Some(n) => Some(TagValue::Number(*n)),
                None => None,
            },
            TagKey::DiscTotal => match &self.disc_total {
                Some(n) => Some(TagValue::Number(*n)),
                None => None,
            },
            TagKey::Lyrics => match &self.lyrics {
                Some(s) => Some(TagValue::Text(s.clone())),
                None => None,
            },
            TagKey::CoverImage => match &self.cover_image {
                Some(b) => Some(TagValue::Image(b.clone())),
                None => None,
            },
        }
    }
}

fn opt_str_eq(a: &Option<String>, b: &Option<String>) -> (r: bool)
    ensures
        r == (a.deep_view() == b.deep_view()),
{
    match (a, b) {
        (Some(x), Some(y)) => crate::strutil::str_eq(x.as_str(), y.as_str()),
        (None, None) => true,
        _ => false,
    }
}

fn opt_u32_eq(a: &Option<u32>, b: &Option<u32>) -> (r: bool)
    ensures
        r == (*a == *b),
{
    match (a, b) {
        (Some(x), Some(y)) => x == y,
        (None, None) => true,
        _ => false,
    }
}

fn bytes_eq(a: &Vec<u8>, b: &Vec<u8>) -> (r: bool)
    ensures
        r == (a@ == b@),
{
    if a.len() != b.len() {
        return false;
    }
    let mut i: usize = 0;
    while i < a.len()
        invariant
            i <= a@.len(),
            a@.len() == b@.len(),
            forall|k: int| 0 <= k < i ==> a@[k] == b@[k],
        decreases a@.len() - i,
    {
        if a[i] != b[i] {
            return false;
        }
        i += 1;
    }
    assert(a@ =~= b@);
    true
}

fn opt_bytes_eq(a: &Option<Vec<u8>>, b: &Option<Vec<u8>>) -> (r: bool)
    ensures
        r == (a.deep_view() == b.deep_view()),
{
    match (a, b) {
        (Some(x), Some(y)) => {
            proof {
                assert(x.deep_view() =~= x@);
                assert(y.deep_view() =~= y@);
            }
            bytes_eq(x, y)
        },
        (None, None) => true,
        _ => false,
    }
}

/// Whether two tag projections differ in any field. A tag is committed to
/// disk only when it changed: an untouched tag is never rewritten.
pub fn tag_changed(a: &TrackTag, b: &TrackTag) -> (r: bool)
    ensures
        r == (a@ != b@),
{
    let same = opt_str_eq(&a.title, &b.title) && opt_str_eq(&a.artist, &b.artist) && opt_str_eq(
        &a.album,
        &b.album,
    ) && opt_u32_eq(&a.year, &b.year) && opt_str_eq(&a.release_date, &b.release_date) && opt_u32_eq(
        &a.track_no,
        &b.track_no,
    ) && opt_u32_eq(&a.track_total, &b.track_total) && opt_u32_eq(&a.disc_no, &b.disc_no)
        && opt_u32_eq(&a.disc_total, &b.disc_total) && opt_str_eq(&a.lyrics, &b.lyrics)
        && opt_bytes_eq(&a.cover_image, &b.cover_image);
    if same {
        assert(a@ =~= b@);
    }
    !same
}

/// Writing a field and reading it back yields the written value, and every
/// other field reads as it did before the write: one field write never
/// clobbers an unrelated field.
pub proof fn lemma_field_write_round_trip(
    t: TrackTagView,
    k: TagKey,
    v: TagValueView,
    k2: TagKey,
)
    requires
        value_fits_key(k, v),
        k2 != k,
    ensures
        spec_get_field(spec_set_field(t, k, v), k) == Some(v),
        spec_get_field(spec_set_field(t, k, v), k2) == spec_get_field(t, k2),
{
}

} // verus!
