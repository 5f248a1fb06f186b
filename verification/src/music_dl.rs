//! A music batch job: its settings and the downloader invocation it plans.
//!
//! One `MusicDownload` owns one batch: link, target directory, audio
//! format, and the enrichment switches. `download` turns the settings into
//! the exact downloader argument list for the chosen audio format; the
//! caller runs the external process with it and correlates the resulting
//! run log.

use vstd::prelude::*;
use vstd::string::*;
use crate::config::Config;
use crate::report::BatchStatus;
use crate::report::EnrichOptions;
use crate::strutil::spec_i8_string;
use crate::strutil::i8_to_string;
use crate::strutil::str_eq;

verus! {

pub struct MusicDownload {
    pub link: String,
    pub out_directory: String,
    pub status: BatchStatus,
    pub format: i8,
    pub lyrics: bool,
    pub frag: i8,
    pub sub_lang: String,
    pub auto_lyric: bool,
    pub sim_rate: i8,
    pub musicbrainz: bool,
    pub lrclib: bool,
    pub config_path: String,
}

impl MusicDownload {
    /// A fresh job over the persisted settings; the caller supplies the
    /// default output directory and the settings file's path.
    pub fn from_config(configs: &Config, default_directory: String, config_path: String) -> (m:
        Self)
        ensures
            m.link@.len() == 0,
            m.out_directory@ == default_directory@,
            m.status == BatchStatus::Idle,
            m.format == configs.music_dl.format,
            m.lyrics == configs.music_dl.lyrics,
            m.frag == configs.music_dl.fragments,
            m.sub_lang@ == configs.universal.language@,
            m.auto_lyric == configs.music_dl.auto_gen_sub,
            m.sim_rate == configs.music_dl.threshold,
            m.musicbrainz == configs.music_dl.musicbrainz,
            m.lrclib == configs.music_dl.liblrc,
            m.config_path@ == config_path@,
    {
        MusicDownload {
            link: String::new(),
            out_directory: default_directory,
            status: BatchStatus::Idle,
            format: configs.music_dl.format,
            lyrics: configs.music_dl.lyrics,
            frag: configs.music_dl.fragments,
            sub_lang: configs.universal.language.clone(),
            auto_lyric: configs.music_dl.auto_gen_sub,
            sim_rate: configs.music_dl.threshold,
            musicbrainz: configs.music_dl.musicbrainz,
            lrclib: configs.music_dl.liblrc,
            config_path,
        }
    }

    /// Mark the job as running.
    pub fn start_download_status(&mut self)
        ensures
            *final(self) == (MusicDownload { status: BatchStatus::Pending, ..*old(self) }),
    {
        self.status = BatchStatus::Pending;
    }

    /// Mark the job as not yet run.
    pub fn reset_download_status(&mut self)
        ensures
            *final(self) == (MusicDownload { status: BatchStatus::Idle, ..*old(self) }),
    {
        self.status = BatchStatus::Idle;
    }

    /// The enrichment stages this job asks for.
    pub fn enrich_options(&self) -> (o: EnrichOptions)
        ensures
            o.local_lyrics == self.lyrics,
            o.musicbrainz == self.musicbrainz,
            o.lrclib == self.lrclib,
            o.threshold == self.sim_rate,
    {
        EnrichOptions {
            local_lyrics: self.lyrics,
            musicbrainz: self.musicbrainz,
            lrclib: self.lrclib,
            threshold: self.sim_rate,
        }
    }
}

/// The audio format name a format code selects.
pub open spec fn spec_format_name(format: i8) -> Seq<char> {
    if format == 1 {
        "opus"@
    } else if format == 2 {
        "flac"@
    } else if format == 3 {
        "mp3"@
    } else if format == 4 {
        "m4a"@
    } else if format == 5 {
        "wav"@
    } else {
        Seq::empty()
    }
}

/// The downloader argument list for one music batch: extract audio at best
/// quality in the chosen format, embed the thumbnail and metadata, name the
/// output after the title; when lyrics are wanted, also write subtitles
/// converted to lrc (auto-generated ones when asked), in the chosen
/// language when it is not English.
pub open spec fn spec_music_args(
    format_name: Seq<char>,
    frags: int,
    lyrics: bool,
    lang: Seq<char>,
    auto_lyric: bool,
    link: Seq<char>,
) -> Seq<Seq<char>> {
    seq![
        "--concurrent-fragments"@,
        spec_i8_string(frags),
        "-i"@,
        "-x"@,
        "--audio-quality"@,
        "0"@,
        "--audio-format"@,
        format_name,
        "--embed-thumbnail"@,
        "--add-metadata"@,
        "--metadata-from-title"@,
        "%(title)s"@,
        "--parse-metadata"@,
        "title:%(title)s"@,
        "--parse-metadata"@,
        "uploader:%(artist)s"@,
        "--output"@,
        "%(title)s.%(ext)s"@,
        "--compat-options"@,
        "no-live-chat"@,
    ] + (if lyrics {
        (if auto_lyric {
            seq!["--write-auto-subs"@]
        } else {
            Seq::empty()
        }) + seq!["--write-subs"@, "--convert-subs"@, "lrc"@] + (if lang != "en"@ {
            seq!["--sub-langs"@, lang]
        } else {
            Seq::empty()
        })
    } else {
        Seq::empty()
    }) + seq![link]
}

/// The planned downloader invocation for one batch.
pub struct DownloadPlan {
    pub format_name: String,
    pub args: Vec<String>,
}

/// Plan the download for a format code: the format's name and the exact
/// downloader argument list. An unknown format code plans nothing, and the
/// batch is reported failed.
pub fn download(
    link: &str,
    format: i8,
    lyrics: bool,
    frags: i8,
    lang_code: &str,
    auto_lyric: bool,
) -> (r: Option<DownloadPlan>)
    ensures
        r is Some <==> 1 <= format <= 5,
        r matches Some(p) ==> p.format_name@ == spec_format_name(format) && p.args.deep_view()
            == spec_music_args(
            spec_format_name(format),
            frags as int,
            lyrics,
            lang_code@,
            auto_lyric,
            link@,
        ),
{
    let format_name: &str = if format == 1 {
        "opus"
    } else if format == 2 {
        "flac"
    } else if format == 3 {
        "mp3"
    } else if format == 4 {
        "m4a"
    } else if format == 5 {
        "wav"
    } else {
        return None;
    };
    let mut args: Vec<String> = Vec::new();
    args.push("--concurrent-fragments".to_owned());
    args.push(i8_to_string(frags));
    args.push("-i".to_owned());
    args.push("-x".to_owned());
    args.push("--audio-quality".to_owned());
    args.push("0".to_owned());
    args.push("--audio-format".to_owned());
    args.push(format_name.to_owned());
    args.push("--embed-thumbnail".to_owned());
    args.push("--add-metadata".to_owned());
    args.push("--metadata-from-title".to_owned());
    args.push("%(title)s".to_owned());
    args.push("--parse-metadata".to_owned());
    args.push("title:%(title)s".to_owned());
    args.push("--parse-metadata".to_owned());
    args.push("uploader:%(artist)s".to_owned());
    args.push("--output".to_owned());
    args.push("%(title)s.%(ext)s".to_owned());
    args.push("--compat-options".to_owned());
    args.push("no-live-chat".to_owned());
    if lyrics {
        if auto_lyric {
            args.push("--write-auto-subs".to_owned());
        }
        args.push("--write-subs".to_owned());
        args.push("--convert-subs".to_owned());
        args.push("lrc".to_owned());
        if !str_eq(lang_code, "en") {
            args.push("--sub-langs".to_owned());
            args.push(lang_code.to_owned());
        }
    }
    args.push(link.to_owned());
    assert(args.deep_view() =~= spec_music_args(
        spec_format_name(format),
        frags as int,
        lyrics,
        lang_code@,
        auto_lyric,
        link@,
    ));
    Some(DownloadPlan { format_name: format_name.to_owned(), args })
}

} // verus!
