use azul_box::correlate::base_name_of;
use azul_box::correlate::correlate;
use azul_box::correlate::extract_marker;
use azul_box::correlate::retain_existing;
use azul_box::correlate::split_lines;
use azul_box::correlate::strip_dir;
use azul_box::report::batch_status;
use azul_box::report::BatchStatus;

#[test]
fn embed_marker_scenario_yields_one_file_and_done() {
    let log = "[EmbedThumbnail] Adding thumbnail to \"Song Title.opus\"";
    let files = correlate(log, "opus", "/music");
    assert_eq!(files.len(), 1);
    assert_eq!(files[0].base_name, "Song Title");
    assert_eq!(files[0].absolute_path, "/music/Song Title.opus");
    assert_eq!(files[0].media_extension, "opus");
    assert_eq!(batch_status(files.len(), true), BatchStatus::Done);
}

#[test]
fn zero_markers_fail_batch_even_on_clean_exit() {
    let log = "[download] Destination: Song.opus\n[ExtractAudio] done\n";
    let files = correlate(log, "opus", "/music");
    assert_eq!(files.len(), 0);
    assert_eq!(batch_status(files.len(), true), BatchStatus::Fail);
    assert_eq!(batch_status(files.len(), false), BatchStatus::Fail);
}

#[test]
fn markers_kept_in_log_order() {
    let log = "noise\n[EmbedThumbnail] Adding thumbnail to \"A.mp3\"\nmore noise\n[EmbedThumbnail] Adding thumbnail to \"B.mp3\"\n";
    let files = correlate(log, "mp3", "/m");
    assert_eq!(files.len(), 2);
    assert_eq!(files[0].base_name, "A");
    assert_eq!(files[1].base_name, "B");
}

#[test]
fn command_marker_takes_first_single_quoted_token() {
    let line = "[Exec] Executing command: '/tmp/Song One.opus' --post";
    assert_eq!(extract_marker(line), Some("/tmp/Song One.opus".to_owned()));
    let log = "[Exec] Executing command: '/tmp/Song One.opus' --post";
    let files = correlate(log, "opus", "/music");
    assert_eq!(files.len(), 1);
    assert_eq!(files[0].base_name, "Song One");
}

#[test]
fn command_marker_without_quotes_is_no_marker() {
    assert_eq!(extract_marker("[Exec] Executing command: rm -rf x"), None);
    assert_eq!(extract_marker("[Exec] Executing command: 'unclosed"), None);
}

#[test]
fn embed_marker_needs_closing_quote() {
    assert_eq!(extract_marker("[EmbedThumbnail] Adding thumbnail to \"x.opus"), None);
    assert_eq!(
        extract_marker("[EmbedThumbnail] Adding thumbnail to \"x.opus\""),
        Some("x.opus".to_owned())
    );
}

#[test]
fn base_name_strips_directory_and_extension() {
    assert_eq!(base_name_of("/a/b/Song.opus", "opus"), "Song");
    assert_eq!(base_name_of("Song.opus", "opus"), "Song");
    assert_eq!(base_name_of("Song.flac", "opus"), "Song.flac");
    assert_eq!(strip_dir("/a/b/c.txt"), "c.txt");
    assert_eq!(strip_dir("c.txt"), "c.txt");
}

#[test]
fn split_lines_sheds_carriage_returns() {
    let lines = split_lines("a\r\nb\nc");
    assert_eq!(lines, vec!["a".to_owned(), "b".to_owned(), "c".to_owned()]);
}

#[test]
fn markers_survive_windows_line_endings() {
    let log = "[EmbedThumbnail] Adding thumbnail to \"A.mp3\"\r\nnoise\r\n";
    let files = correlate(log, "mp3", "/m");
    assert_eq!(files.len(), 1);
    assert_eq!(files[0].base_name, "A");
}

#[test]
fn missing_files_are_dropped_silently_in_order() {
    let log = "[EmbedThumbnail] Adding thumbnail to \"A.mp3\"\n[EmbedThumbnail] Adding thumbnail to \"B.mp3\"\n[EmbedThumbnail] Adding thumbnail to \"C.mp3\"";
    let files = correlate(log, "mp3", "/m");
    assert_eq!(files.len(), 3);
    let kept = retain_existing(files, &vec![true, false, true]);
    assert_eq!(kept.len(), 2);
    assert_eq!(kept[0].base_name, "A");
    assert_eq!(kept[1].base_name, "C");
}

#[test]
fn all_existing_files_are_all_kept() {
    let log = "[EmbedThumbnail] Adding thumbnail to \"A.mp3\"\n[EmbedThumbnail] Adding thumbnail to \"B.mp3\"";
    let files = correlate(log, "mp3", "/m");
    let kept = retain_existing(files, &vec![true, true]);
    assert_eq!(kept.len(), 2);
    assert_eq!(kept[0].base_name, "A");
    assert_eq!(kept[1].base_name, "B");
}
