//! A video batch job: its settings and the downloader invocation it plans.

use vstd::prelude::*;
use crate::config::Config;
use crate::report::BatchStatus;
use crate::strutil::spec_i8_string;
use crate::strutil::i8_to_string;

verus! {

pub struct VideoDownload {
    pub link: String,
    pub out_directory: String,
    pub status: BatchStatus,
    pub format: i8,
    pub frag: i8,
    pub subtitle: bool,
    pub sub_lang: String,
    pub auto_sub: bool,
    pub config_path: String,
}

impl VideoDownload {
    /// A fresh job over the persisted settings; the caller supplies the
    /// default output directory and the settings file's path.
    pub fn from_config(configs: &Config, default_directory: String, config_path: String) -> (m:
        Self)
        ensures
            m.link@.len() == 0,
            m.out_directory@ == default_directory@,
            m.status == BatchStatus::Idle,
            m.format == if configs.video_dl.format@ == "mp4"@ {
                2int
            } else {
                1int
            },
            m.frag == configs.video_dl.fragments,
            m.subtitle == configs.video_dl.subtitle,
            m.sub_lang@ == configs.universal.language@,
            m.auto_sub == configs.video_dl.auto_gen_sub,
            m.config_path@ == config_path@,
    {
        VideoDownload {
            link: String::new(),
            out_directory: default_directory,
            status: BatchStatus::Idle,
            format: video_format_code(configs.video_dl.format.as_str()),
            frag: configs.video_dl.fragments,
            subtitle: configs.video_dl.subtitle,
            sub_lang: configs.universal.language.clone(),
            auto_sub: configs.video_dl.auto_gen_sub,
            config_path,
        }
    }

    /// Mark the job as running.
    pub fn start_download_status(&mut self)
        ensures
            *final(self) == (VideoDownload { status: BatchStatus::Pending, ..*old(self) }),
    {
        self.status = BatchStatus::Pending;
    }

    /// Mark the job as not yet run.
    pub fn reset_download_status(&mut self)
        ensures
            *final(self) == (VideoDownload { status: BatchStatus::Idle, ..*old(self) }),
    {
        self.status = BatchStatus::Idle;
    }
}

/// The format code a persisted container name selects: mkv or mp4.
pub fn video_format_code(name: &str) -> (c: i8)
    ensures
        c == if name@ == "mp4"@ {
            2int
        } else {
            1int
        },
{
    if crate::strutil::str_eq(name, "mp4") {
        2
    } else {
        1
    }
}

/// The downloader argument list for one video batch: embed thumbnail and
/// metadata; embed subtitles in the chosen language when wanted
/// (auto-generated ones too when asked); pick the stream selection the
/// container format calls for.
pub open spec fn spec_video_args(
    format: i8,
    frags: int,
    subtitle: bool,
    lang: Seq<char>,
    auto_sub: bool,
    link: Seq<char>,
) -> Seq<Seq<char>> {
    seq!["--concurrent-fragments"@, spec_i8_string(frags), "--embed-thumbnail"@, "--embed-metadata"@]
        + (if subtitle && auto_sub {
        seq!["--write-auto-subs"@, "--embed-subs"@, "--sub-lang"@, lang]
    } else if subtitle {
        seq!["--embed-subs"@, "--sub-lang"@, lang]
    } else {
        Seq::empty()
    }) + (if format == 1 {
        seq!["-f"@, "bestvideo+bestaudio"@]
    } else if format == 2 {
        seq!["-f"@, "bestvideo[ext=mp4]+bestaudio[ext=m4a]/best[ext=mp4]/best"@]
    } else {
        Seq::empty()
    }) + seq![link]
}

/// Plan the download for one video batch: the exact downloader argument
/// list. A format code other than mkv or mp4 plans no stream selection,
/// as the downloader then picks its default.
pub fn download(
    link: &str,
    format: i8,
    frags: i8,
    subtitle: bool,
    lang: &str,
    auto_sub: bool,
) -> (args: Vec<String>)
    ensures
        args.deep_view() == spec_video_args(format, frags as int, subtitle, lang@, auto_sub, link@),
{
    let mut args: Vec<String> = Vec::new();
    args.push("--concurrent-fragments".to_owned());
    args.push(i8_to_string(frags));
    args.push("--embed-thumbnail".to_owned());
    args.push("--embed-metadata".to_owned());
    if subtitle && auto_sub {
        args.push("--write-auto-subs".to_owned());
        args.push("--embed-subs".to_owned());
        args.push("--sub-lang".to_owned());
        args.push(lang.to_owned());
    } else if subtitle {
        args.push("--embed-subs".to_owned());
        args.push("--sub-lang".to_owned());
        args.push(lang.to_owned());
    }
    if format == 1 {
        args.push("-f".to_owned());
        args.push("bestvideo+bestaudio".to_owned());
    } else if format == 2 {
        args.push("-f".to_owned());
        args.push("bestvideo[ext=mp4]+bestaudio[ext=m4a]/best[ext=mp4]/best".to_owned());
    }
    args.push(link.to_owned());
    assert(args.deep_view() =~= spec_video_args(
        format,
        frags as int,
        subtitle,
        lang@,
        auto_sub,
        link@,
    ));
    args
}

} // verus!
