use azul_box::config::modifier_config;
use azul_box::config::Config;
use azul_box::config::ConfigChange;
use azul_box::report::aggregate_batch;
use azul_box::report::batch_status;
use azul_box::report::plan_stages;
use azul_box::report::BatchStatus;
use azul_box::report::EnrichError;
use azul_box::report::EnrichOptions;
use azul_box::report::FileReport;
use azul_box::report::StageKind;

#[test]
fn default_config_values() {
    let c = Config::default();
    assert_eq!(c.universal.language, "en");
    assert_eq!(c.video_dl.format, "mkv");
    assert!(c.video_dl.subtitle);
    assert!(!c.video_dl.auto_gen_sub);
    assert_eq!(c.video_dl.fragments, 1);
    assert_eq!(c.music_dl.format, 1);
    assert!(c.music_dl.lyrics);
    assert!(!c.music_dl.auto_gen_sub);
    assert!(!c.music_dl.liblrc);
    assert!(!c.music_dl.musicbrainz);
    assert_eq!(c.music_dl.threshold, 90);
    assert_eq!(c.music_dl.fragments, 1);
}

#[test]
fn one_edit_changes_one_setting_only() {
    let mut c = Config::default();
    modifier_config(&mut c, ConfigChange::MusicThreshold(42));
    assert_eq!(c.music_dl.threshold, 42);
    assert_eq!(c.music_dl.format, 1);
    assert!(c.music_dl.lyrics);
    assert_eq!(c.universal.language, "en");
    assert_eq!(c.video_dl.format, "mkv");

    modifier_config(&mut c, ConfigChange::Language("vi".to_owned()));
    assert_eq!(c.universal.language, "vi");
    assert_eq!(c.music_dl.threshold, 42);

    modifier_config(&mut c, ConfigChange::VideoFormat("mp4".to_owned()));
    assert_eq!(c.video_dl.format, "mp4");
    assert!(c.video_dl.subtitle);

    modifier_config(&mut c, ConfigChange::MusicBrainz(true));
    assert!(c.music_dl.musicbrainz);
    assert_eq!(c.music_dl.threshold, 42);
}

#[test]
fn batch_status_ignores_exit_code_and_reports() {
    assert_eq!(batch_status(0, true), BatchStatus::Fail);
    assert_eq!(batch_status(0, false), BatchStatus::Fail);
    assert_eq!(batch_status(3, false), BatchStatus::Done);
    assert_eq!(BatchStatus::Idle.as_code(), 0);
    assert_eq!(BatchStatus::Pending.as_code(), 1);
    assert_eq!(BatchStatus::Done.as_code(), 2);
    assert_eq!(BatchStatus::Fail.as_code(), 3);
}

#[test]
fn per_file_failures_never_fail_the_batch() {
    let reports = vec![
        FileReport { base_name: "A".to_owned(), outcome: Ok(()) },
        FileReport { base_name: "B".to_owned(), outcome: Err(EnrichError::WriteFailed) },
        FileReport { base_name: "C".to_owned(), outcome: Err(EnrichError::NoConfidentMatch) },
    ];
    let batch = aggregate_batch(3, true, reports);
    assert_eq!(batch.status, BatchStatus::Done);
    assert_eq!(batch.reports.len(), 3);
    assert_eq!(batch.reports[1].outcome, Err(EnrichError::WriteFailed));
}

#[test]
fn stages_run_in_fixed_order_when_asked() {
    let o = EnrichOptions { local_lyrics: true, musicbrainz: true, lrclib: true, threshold: 90 };
    assert_eq!(
        plan_stages(&o),
        vec![StageKind::EmbedLocalLyrics, StageKind::CatalogMatch, StageKind::FetchLyrics]
    );
    let o = EnrichOptions { local_lyrics: false, musicbrainz: true, lrclib: false, threshold: 90 };
    assert_eq!(plan_stages(&o), vec![StageKind::CatalogMatch]);
    let o = EnrichOptions { local_lyrics: false, musicbrainz: false, lrclib: false, threshold: 0 };
    assert_eq!(plan_stages(&o), vec![]);
}
