use azul_box::config::Config;
use azul_box::img_convert;
use azul_box::music_dl;
use azul_box::music_dl::MusicDownload;
use azul_box::pinterest::pin_image_target;
use azul_box::pinterest::PinterstDownload;
use azul_box::report::BatchStatus;
use azul_box::video_convert;
use azul_box::video_dl;

#[test]
fn music_plan_for_opus_with_lyrics() {
    let plan = music_dl::download("https://x/y", 1, true, 2, "vi", true).unwrap();
    assert_eq!(plan.format_name, "opus");
    let expected: Vec<&str> = vec![
        "--concurrent-fragments",
        "2",
        "-i",
        "-x",
        "--audio-quality",
        "0",
        "--audio-format",
        "opus",
        "--embed-thumbnail",
        "--add-metadata",
        "--metadata-from-title",
        "%(title)s",
        "--parse-metadata",
        "title:%(title)s",
        "--parse-metadata",
        "uploader:%(artist)s",
        "--output",
        "%(title)s.%(ext)s",
        "--compat-options",
        "no-live-chat",
        "--write-auto-subs",
        "--write-subs",
        "--convert-subs",
        "lrc",
        "--sub-langs",
        "vi",
        "https://x/y",
    ];
    assert_eq!(plan.args, expected);
}

#[test]
fn music_plan_skips_language_for_english() {
    let plan = music_dl::download("L", 3, true, 1, "en", false).unwrap();
    assert_eq!(plan.format_name, "mp3");
    assert!(!plan.args.contains(&"--sub-langs".to_owned()));
    assert!(!plan.args.contains(&"--write-auto-subs".to_owned()));
    assert!(plan.args.contains(&"--write-subs".to_owned()));
}

#[test]
fn music_plan_without_lyrics_has_no_subtitle_args() {
    let plan = music_dl::download("L", 5, false, 1, "vi", true).unwrap();
    assert_eq!(plan.format_name, "wav");
    assert!(!plan.args.contains(&"--write-subs".to_owned()));
    assert_eq!(plan.args.last(), Some(&"L".to_owned()));
}

#[test]
fn unknown_music_format_plans_nothing() {
    assert!(music_dl::download("L", 9, true, 1, "en", false).is_none());
    assert!(music_dl::download("L", 0, false, 1, "en", false).is_none());
}

#[test]
fn music_job_takes_its_settings_from_config() {
    let mut c = Config::default();
    c.music_dl.musicbrainz = true;
    c.music_dl.threshold = 77;
    let m = MusicDownload::from_config(&c, "/music".to_owned(), "/cfg/a.toml".to_owned());
    assert_eq!(m.link, "");
    assert_eq!(m.out_directory, "/music");
    assert_eq!(m.status, BatchStatus::Idle);
    assert_eq!(m.format, 1);
    assert!(m.lyrics);
    assert!(m.musicbrainz);
    assert_eq!(m.sim_rate, 77);
    assert_eq!(m.config_path, "/cfg/a.toml");
    let o = m.enrich_options();
    assert!(o.local_lyrics && o.musicbrainz && !o.lrclib);
    assert_eq!(o.threshold, 77);
}

#[test]
fn job_status_transitions() {
    let c = Config::default();
    let mut m = MusicDownload::from_config(&c, String::new(), String::new());
    m.start_download_status();
    assert_eq!(m.status, BatchStatus::Pending);
    m.reset_download_status();
    assert_eq!(m.status, BatchStatus::Idle);

    let mut v = video_dl::VideoDownload::from_config(&c, String::new(), String::new());
    v.start_download_status();
    assert_eq!(v.status, BatchStatus::Pending);
    v.reset_download_status();
    assert_eq!(v.status, BatchStatus::Idle);

    let mut p = PinterstDownload::new(String::new());
    p.start_download_status();
    assert!(p.status_pending && !p.status_complete);
    p.reset_download_status();
    assert!(!p.status_pending && !p.status_complete);

    let mut ic = img_convert::ImgConvert::new(String::new());
    ic.start_download_status();
    assert_eq!(ic.status, BatchStatus::Pending);

    let mut vc = video_convert::VideoConvert::new(String::new());
    vc.start_download_status();
    assert_eq!(vc.status, BatchStatus::Pending);
}

#[test]
fn video_plan_for_mkv_with_auto_subs() {
    let args = video_dl::download("https://x", 1, 3, true, "vi", true);
    let expected: Vec<&str> = vec![
        "--concurrent-fragments",
        "3",
        "--embed-thumbnail",
        "--embed-metadata",
        "--write-auto-subs",
        "--embed-subs",
        "--sub-lang",
        "vi",
        "-f",
        "bestvideo+bestaudio",
        "https://x",
    ];
    assert_eq!(args, expected);
}

#[test]
fn video_plan_for_mp4_without_subs() {
    let args = video_dl::download("L", 2, 1, false, "en", false);
    let expected: Vec<&str> = vec![
        "--concurrent-fragments",
        "1",
        "--embed-thumbnail",
        "--embed-metadata",
        "-f",
        "bestvideo[ext=mp4]+bestaudio[ext=m4a]/best[ext=mp4]/best",
        "L",
    ];
    assert_eq!(args, expected);
    assert_eq!(video_dl::video_format_code("mp4"), 2);
    assert_eq!(video_dl::video_format_code("mkv"), 1);
}

#[test]
fn image_conversion_plan_names_output_after_stem() {
    let args = img_convert::download("/pics/photo.cr2", "png");
    let expected: Vec<&str> = vec!["-i", "/pics/photo.cr2", "-q:v", "100", "photo.png"];
    assert_eq!(args, expected);
    assert_eq!(img_convert::file_stem("/a/b/name.tar.gz"), "name");
    assert_eq!(img_convert::convert_output("clip.mov", "webp"), "clip.webp");
}

#[test]
fn video_conversion_plan_is_exact() {
    let args = video_convert::download("/v/clip.mov", "mp4");
    let expected: Vec<&str> = vec!["-i", "/v/clip.mov", "clip.mp4"];
    assert_eq!(args, expected);
}

#[test]
fn conversion_status_follows_exit_code() {
    assert_eq!(img_convert::convert_status(true), BatchStatus::Done);
    assert_eq!(img_convert::convert_status(false), BatchStatus::Fail);
}

#[test]
fn first_page_image_is_picked_with_its_file_name() {
    let html = "<html><body><p>x</p><img src=\"https://cdn.example/p/abc123.jpg\"><img src=\"https://cdn.example/p/other.jpg\"></body></html>";
    let (url, name) = pin_image_target(html).unwrap();
    assert_eq!(url, "https://cdn.example/p/abc123.jpg");
    assert_eq!(name, "abc123.jpg");
    assert!(pin_image_target("<html><body>no images</body></html>").is_none());
}
