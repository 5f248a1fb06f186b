use azul_box::lyrics::apply_translation;
use azul_box::lyrics::lyric_query_url;
use azul_box::lyrics::parse_lyric_response;
use azul_box::lyrics::parse_translation;
use azul_box::lyrics::pick_lyrics_file;
use azul_box::lyrics::select_lyrics;
use azul_box::lyrics::should_embed_lyrics;
use azul_box::lyrics::translation_url;
use azul_box::lyrics::LyricQuery;
use azul_box::lyrics::LyricResult;

#[test]
fn lyric_url_is_form_urlencoded() {
    let q = LyricQuery {
        artist: "a b/c".to_owned(),
        title: "T.N.T".to_owned(),
        target_language: "en".to_owned(),
    };
    assert_eq!(
        lyric_query_url(&q),
        "https://lrclib.net/api/get?artist_name=a+b%2Fc&track_name=T.N.T"
    );
}

#[test]
fn translation_url_is_form_urlencoded() {
    assert_eq!(
        translation_url("vi", "hello world"),
        "https://translate.googleapis.com/translate_a/single?client=gtx&sl=auto&tl=vi&dt=t&q=hello+world"
    );
}

#[test]
fn synced_lyrics_win_over_plain() {
    let r = select_lyrics("plain text".to_owned(), "[00:01.00] synced".to_owned()).unwrap();
    assert_eq!(r.text, "[00:01.00] synced");
    assert!(r.is_synced);
}

#[test]
fn plain_lyrics_used_when_no_synced() {
    let r = select_lyrics("plain text".to_owned(), String::new()).unwrap();
    assert_eq!(r.text, "plain text");
    assert!(!r.is_synced);
}

#[test]
fn no_lyrics_when_both_empty() {
    assert!(select_lyrics(String::new(), String::new()).is_none());
}

#[test]
fn lyric_response_needs_both_fields_as_strings() {
    let body = "{\"plainLyrics\":\"la la\",\"syncedLyrics\":\"\"}";
    assert_eq!(parse_lyric_response(body), Some(("la la".to_owned(), String::new())));
    assert!(parse_lyric_response("{\"plainLyrics\":\"x\"}").is_none());
    assert!(parse_lyric_response("{\"plainLyrics\":\"x\",\"syncedLyrics\":null}").is_none());
    assert!(parse_lyric_response("nope").is_none());
}

#[test]
fn translation_concatenates_leading_segments() {
    let body = "[[[\"Hola \",\"hello \",null],[\"mundo\",\"world\",null]],null,\"en\"]";
    assert_eq!(parse_translation(body), Some("Hola mundo".to_owned()));
    assert!(parse_translation("{}").is_none());
    assert!(parse_translation("bad").is_none());
}

#[test]
fn failed_translation_keeps_resolved_text() {
    let lyric = LyricResult { text: "original words".to_owned(), is_synced: true };
    let r = apply_translation(lyric, None);
    assert_eq!(r.text, "original words");
    assert!(r.is_synced);

    let lyric = LyricResult { text: "original words".to_owned(), is_synced: false };
    let r = apply_translation(lyric, Some(String::new()));
    assert_eq!(r.text, "original words");
    assert!(!r.text.is_empty());
}

#[test]
fn successful_translation_replaces_text() {
    let lyric = LyricResult { text: "original".to_owned(), is_synced: false };
    let r = apply_translation(lyric, Some("translated".to_owned()));
    assert_eq!(r.text, "translated");
    assert!(!r.is_synced);
}

#[test]
fn embedding_takes_lyrics_only_for_tagged_formats() {
    let lyrics = Some("words".to_owned());
    assert!(should_embed_lyrics("flac", &lyrics));
    assert!(should_embed_lyrics("opus", &lyrics));
    assert!(should_embed_lyrics("mp3", &lyrics));
    assert!(should_embed_lyrics("m4a", &lyrics));
    assert!(!should_embed_lyrics("wav", &lyrics));
    assert!(!should_embed_lyrics("opus", &None));
}

#[test]
fn subtitle_file_pick_takes_last_matching_lrc() {
    let names = vec![
        "Song.lrc".to_owned(),
        "Other.lrc".to_owned(),
        "Song.en.lrc".to_owned(),
        "Song.txt".to_owned(),
    ];
    assert_eq!(pick_lyrics_file(&names, "Song"), Some(2));
    assert_eq!(pick_lyrics_file(&names, "Nothing"), None);
}
