//! Configuration: the persisted settings and their single-field edits.
//!
//! The settings file itself is read and written by the caller; here live
//! the settings' shape, their defaults, and `modifier_config`, which
//! applies one edit while provably leaving every other setting as it was.

use vstd::prelude::*;

verus! {

pub struct Universal {
    pub language: String,
}

pub struct VideoDl {
    pub format: String,
    pub subtitle: bool,
    pub auto_gen_sub: bool,
    pub fragments: i8,
}

pub struct MusicDl {
    pub format: i8,
    pub lyrics: bool,
    pub auto_gen_sub: bool,
    pub liblrc: bool,
    pub musicbrainz: bool,
    pub threshold: i8,
    pub fragments: i8,
}

pub struct Config {
    pub universal: Universal,
    pub video_dl: VideoDl,
    pub music_dl: MusicDl,
}

#[verifier::ext_equal]
pub struct UniversalView {
    pub language: Seq<char>,
}

#[verifier::ext_equal]
pub struct VideoDlView {
    pub format: Seq<char>,
    pub subtitle: bool,
    pub auto_gen_sub: bool,
    pub fragments: i8,
}

#[verifier::ext_equal]
pub struct MusicDlView {
    pub format: i8,
    pub lyrics: bool,
    pub auto_gen_sub: bool,
    pub liblrc: bool,
    pub musicbrainz: bool,
    pub threshold: i8,
    pub fragments: i8,
}

#[verifier::ext_equal]
pub struct ConfigView {
    pub universal: UniversalView,
    pub video_dl: VideoDlView,
    pub music_dl: MusicDlView,
}

impl View for Universal {
    type V = UniversalView;

    open spec fn view(&self) -> UniversalView {
        UniversalView { language: self.language@ }
    }
}

impl View for VideoDl {
    type V = VideoDlView;

    open spec fn view(&self) -> VideoDlView {
        VideoDlView {
            format: self.format@,
            subtitle: self.subtitle,
            auto_gen_sub: self.auto_gen_sub,
            fragments: self.fragments,
        }
    }
}

impl View for MusicDl {
    type V = MusicDlView;

    open spec fn view(&self) -> MusicDlView {
        MusicDlView {
            format: self.format,
            lyrics: self.lyrics,
            auto_gen_sub: self.auto_gen_sub,
            liblrc: self.liblrc,
            musicbrainz: self.musicbrainz,
            threshold: self.threshold,
            fragments: self.fragments,
        }
    }
}

impl View for Config {
    type V = ConfigView;

    open spec fn view(&self) -> ConfigView {
        ConfigView {
            universal: self.universal@,
            video_dl: self.video_dl@,
            music_dl: self.music_dl@,
        }
    }
}

/// The settings a fresh installation starts from.
pub open spec fn spec_default_config() -> ConfigView {
    ConfigView {
        universal: UniversalView { language: "en"@ },
        video_dl: VideoDlView {
            format: "mkv"@,
            subtitle: true,
            auto_gen_sub: false,
            fragments: 1,
        },
        music_dl: MusicDlView {
            format: 1,
            lyrics: true,
            auto_gen_sub: false,
            liblrc: false,
            musicbrainz: false,
            threshold: 90,
            fragments: 1,
        },
    }
}

impl Default for Config {
    fn default() -> (c: Self)
        ensures
            c@ == spec_default_config(),
    {
        let c = Config {
            universal: Universal { language: "en".to_owned() },
            video_dl: VideoDl {
                format: "mkv".to_owned(),
                subtitle: true,
                auto_gen_sub: false,
                fragments: 1,
            },
            music_dl: MusicDl {
                format: 1,
                lyrics: true,
                auto_gen_sub: false,
                liblrc: false,
                musicbrainz: false,
                threshold: 90,
                fragments: 1,
            },
        };
        assert(c@ =~= spec_default_config());
        c
    }
}

/// One edit of one setting.
pub enum ConfigChange {
    Language(String),
    VideoFormat(String),
    VideoSubtitle(bool),
    VideoAutoGenSub(bool),
    VideoFragments(i8),
    MusicFormat(i8),
    MusicLyrics(bool),
    MusicAutoGenSub(bool),
    MusicLiblrc(bool),
    MusicBrainz(bool),
    MusicThreshold(i8),
    MusicFragments(i8),
}

/// The settings after one edit: the named setting takes the new value and
/// every other setting keeps its old one.
pub open spec fn spec_apply_change(c: ConfigView, change: ConfigChange) -> ConfigView {
    match change {
        ConfigChange::Language(s) => ConfigView {
            universal: UniversalView { language: s@ },
            ..c
        },
        ConfigChange::VideoFormat(s) => ConfigView {
            video_dl: VideoDlView { format: s@, ..c.video_dl },
            ..c
        },
        ConfigChange::VideoSubtitle(b) => ConfigView {
            video_dl: VideoDlView { subtitle: b, ..c.video_dl },
            ..c
        },
        ConfigChange::VideoAutoGenSub(b) => ConfigView {
            video_dl: VideoDlView { auto_gen_sub: b, ..c.video_dl },
            ..c
        },
        ConfigChange::VideoFragments(n) => ConfigView {
            video_dl: VideoDlView { fragments: n, ..c.video_dl },
            ..c
        },
        ConfigChange::MusicFormat(n) => ConfigView {
            music_dl: MusicDlView { format: n, ..c.music_dl },
            ..c
        },
        ConfigChange::MusicLyrics(b) => ConfigView {
            music_dl: MusicDlView { lyrics: b, ..c.music_dl },
            ..c
        },
        ConfigChange::MusicAutoGenSub(b) => ConfigView {
            music_dl: MusicDlView { auto_gen_sub: b, ..c.music_dl },
            ..c
        },
        ConfigChange::MusicLiblrc(b) => ConfigView {
            music_dl: MusicDlView { liblrc: b, ..c.music_dl },
            ..c
        },
        ConfigChange::MusicBrainz(b) => ConfigView {
            music_dl: MusicDlView { musicbrainz: b, ..c.music_dl },
            ..c
        },
        ConfigChange::MusicThreshold(n) => ConfigView {
            music_dl: MusicDlView { threshold: n, ..c.music_dl },
            ..c
        },
        ConfigChange::MusicFragments(n) => ConfigView {
            music_dl: MusicDlView { fragments: n, ..c.music_dl },
            ..c
        },
    }
}

/// Apply one settings edit in place; every setting the edit does not name
/// is provably preserved. The caller persists the result.
pub fn modifier_config(config: &mut Config, change: ConfigChange)
    ensures
        final(config)@ == spec_apply_change(old(config)@, change),
{
    match change {
        ConfigChange::Language(s) => {
            config.universal.language = s;
        },
        ConfigChange::VideoFormat(s) => {
            config.video_dl.format = s;
        },
        ConfigChange::VideoSubtitle(b) => {
            config.video_dl.subtitle = b;
        },
        ConfigChange::VideoAutoGenSub(b) => {
            config.video_dl.auto_gen_sub = b;
        },
        ConfigChange::VideoFragments(n) => {
            config.video_dl.fragments = n;
        },
        ConfigChange::MusicFormat(n) => {
            config.music_dl.format = n;
        },
        ConfigChange::MusicLyrics(b) => {
            config.music_dl.lyrics = b;
        },
        ConfigChange::MusicAutoGenSub(b) => {
            config.music_dl.auto_gen_sub = b;
        },
        ConfigChange::MusicLiblrc(b) => {
            config.music_dl.liblrc = b;
        },
        ConfigChange::MusicBrainz(b) => {
            config.music_dl.musicbrainz = b;
        },
        ConfigChange::MusicThreshold(n) => {
            config.music_dl.threshold = n;
        },
        ConfigChange::MusicFragments(n) => {
            config.music_dl.fragments = n;
        },
    }
    assert(config@ =~= spec_apply_change(old(config)@, change));
}

} // verus!
