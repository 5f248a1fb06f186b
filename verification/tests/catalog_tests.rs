use azul_box::catalog::cover_url;
use azul_box::catalog::detail_url;
use azul_box::catalog::escape_spaces;
use azul_box::catalog::parse_cover_response;
use azul_box::catalog::parse_detail_response;
use azul_box::catalog::parse_search_response;
use azul_box::catalog::search_url;
use azul_box::catalog::year_of_date;
use azul_box::catalog::CatalogMatcher;
use azul_box::catalog::MatchPhase;
use azul_box::report::EnrichError;
use azul_box::tag::TrackTag;

fn sample_tag() -> TrackTag {
    let mut t = TrackTag::new();
    t.title = Some("old title".to_owned());
    t.artist = Some("old artist".to_owned());
    t.year = Some(1999);
    t
}

#[test]
fn low_score_leaves_tag_unmodified_and_reports_no_confident_match() {
    let body = "{\"recordings\":[{\"id\":\"abc\",\"score\":42,\"title\":\"X\"}]}";
    let candidates = parse_search_response(body);
    let mut tag = sample_tag();
    let mut matcher = CatalogMatcher::new(50);
    let next = matcher.on_search(&mut tag, &candidates);
    assert!(next.is_none());
    assert_eq!(matcher.phase, MatchPhase::Finished);
    assert_eq!(matcher.outcome(), Err(EnrichError::NoConfidentMatch));
    assert_eq!(tag.title, Some("old title".to_owned()));
    assert_eq!(tag.artist, Some("old artist".to_owned()));
    assert_eq!(tag.year, Some(1999));
}

#[test]
fn score_equal_to_threshold_is_rejected() {
    let body = "{\"recordings\":[{\"id\":\"abc\",\"score\":50,\"title\":\"X\"}]}";
    let candidates = parse_search_response(body);
    let mut tag = sample_tag();
    let mut matcher = CatalogMatcher::new(50);
    assert!(matcher.on_search(&mut tag, &candidates).is_none());
    assert_eq!(tag.title, Some("old title".to_owned()));
}

#[test]
fn high_score_sets_title_and_detail_applies_release() {
    let body = "{\"recordings\":[{\"id\":\"abc\",\"score\":91,\"title\":\"Real Title\"}]}";
    let candidates = parse_search_response(body);
    let mut tag = sample_tag();
    let mut matcher = CatalogMatcher::new(50);
    let next = matcher.on_search(&mut tag, &candidates);
    assert_eq!(
        next,
        Some(
            "https://musicbrainz.org/ws/2/recording/abc?inc=artist-credits+isrcs+releases+release-groups+discids&fmt=json"
                .to_owned()
        )
    );
    assert_eq!(tag.title, Some("Real Title".to_owned()));
    assert_eq!(matcher.phase, MatchPhase::Detail);

    let detail = "{\"artist-credit\":[{\"name\":\"Real Artist\"}],\"releases\":[{\"id\":\"rel1\",\"title\":\"Real Album\",\"date\":\"2019-05-01\",\"media\":[{\"position\":1,\"track-count\":12}]}]}";
    let record = parse_detail_response(detail);
    let next = matcher.on_detail(&mut tag, &record);
    assert_eq!(next, Some("https://coverartarchive.org/release/rel1".to_owned()));
    assert_eq!(tag.artist, Some("Real Artist".to_owned()));
    assert_eq!(tag.album, Some("Real Album".to_owned()));
    assert_eq!(tag.year, Some(2019));
    assert_eq!(tag.release_date, Some("2019-05-01".to_owned()));
    assert_eq!(tag.track_no, Some(1));
    assert_eq!(tag.disc_no, Some(1));
    assert_eq!(tag.track_total, Some(12));
    assert_eq!(tag.disc_total, Some(12));

    let cover = "{\"images\":[{\"image\":\"https://img.example/front.jpg\"}]}";
    let manifest = parse_cover_response(cover);
    let next = matcher.on_cover(&manifest);
    assert_eq!(next, Some("https://img.example/front.jpg".to_owned()));
    matcher.on_image(&mut tag, Some(vec![1, 2, 3]));
    assert_eq!(tag.cover_image, Some(vec![1, 2, 3]));
    assert_eq!(matcher.phase, MatchPhase::Finished);
    assert_eq!(matcher.outcome(), Ok(()));
}

#[test]
fn empty_candidate_list_is_rejected() {
    let candidates = parse_search_response("{\"recordings\":[]}");
    assert_eq!(candidates.as_ref().map(|v| v.len()), Some(0));
    let mut tag = sample_tag();
    let mut matcher = CatalogMatcher::new(10);
    assert!(matcher.on_search(&mut tag, &candidates).is_none());
    assert_eq!(matcher.outcome(), Err(EnrichError::NoConfidentMatch));
}

#[test]
fn malformed_search_response_is_rejected() {
    assert!(parse_search_response("not json").is_none());
    assert!(parse_search_response("{\"other\":1}").is_none());
    assert!(parse_search_response("{\"recordings\":[{\"id\":\"a\",\"title\":\"t\"}]}").is_none());
}

#[test]
fn detail_without_release_ends_the_attempt() {
    let mut tag = sample_tag();
    let mut matcher = CatalogMatcher::new(50);
    let body = "{\"recordings\":[{\"id\":\"abc\",\"score\":91,\"title\":\"T\"}]}";
    matcher.on_search(&mut tag, &parse_search_response(body));
    let record = parse_detail_response("{\"artist-credit\":[{\"name\":\"A\"}]}");
    let next = matcher.on_detail(&mut tag, &record);
    assert!(next.is_none());
    assert_eq!(matcher.phase, MatchPhase::Finished);
    assert_eq!(tag.artist, Some("A".to_owned()));
    assert_eq!(matcher.outcome(), Ok(()));
}

#[test]
fn cover_failure_is_swallowed() {
    let mut matcher = CatalogMatcher::new(50);
    let mut tag = sample_tag();
    let body = "{\"recordings\":[{\"id\":\"abc\",\"score\":91,\"title\":\"T\"}]}";
    matcher.on_search(&mut tag, &parse_search_response(body));
    let detail = "{\"releases\":[{\"id\":\"r\",\"title\":\"Al\"}]}";
    matcher.on_detail(&mut tag, &parse_detail_response(detail));
    let next = matcher.on_cover(&parse_cover_response("oops"));
    assert!(next.is_none());
    assert_eq!(matcher.phase, MatchPhase::Finished);
    assert_eq!(matcher.outcome(), Ok(()));
}

#[test]
fn failed_search_fetch_leaves_tag_unmodified() {
    let mut tag = sample_tag();
    let mut matcher = CatalogMatcher::new(50);
    let next = matcher.on_search(&mut tag, &None);
    assert!(next.is_none());
    assert_eq!(matcher.outcome(), Err(EnrichError::NoConfidentMatch));
    assert_eq!(tag.title, Some("old title".to_owned()));
    assert_eq!(tag.artist, Some("old artist".to_owned()));
}

#[test]
fn release_without_required_fields_counts_as_no_release() {
    let record = parse_detail_response("{\"releases\":[{\"title\":\"Al\"}]}").unwrap();
    assert!(record.release.is_none());
    let record = parse_detail_response("{\"releases\":[]}").unwrap();
    assert!(record.release.is_none());
}

#[test]
fn oversized_medium_numbers_leave_the_fields_unset() {
    let detail = "{\"releases\":[{\"id\":\"r\",\"title\":\"Al\",\"media\":[{\"position\":1,\"track-count\":4294967296}]}]}";
    let record = parse_detail_response(detail).unwrap();
    let release = record.release.unwrap();
    assert!(release.media.is_none());
    assert_eq!(release.title, "Al");
}

#[test]
fn year_parses_only_numeric_dates() {
    assert_eq!(year_of_date("2019-05-01"), Some(2019));
    assert_eq!(year_of_date("2019"), Some(2019));
    assert_eq!(year_of_date("19x9-05-01"), None);
    assert_eq!(year_of_date("-05-01"), None);
    assert_eq!(year_of_date(""), None);
}

#[test]
fn non_numeric_date_leaves_year_unset_but_keeps_date_text() {
    let mut tag = sample_tag();
    let mut matcher = CatalogMatcher::new(50);
    let body = "{\"recordings\":[{\"id\":\"abc\",\"score\":91,\"title\":\"T\"}]}";
    matcher.on_search(&mut tag, &parse_search_response(body));
    let detail = "{\"releases\":[{\"id\":\"r\",\"title\":\"Al\",\"date\":\"unknown\"}]}";
    matcher.on_detail(&mut tag, &parse_detail_response(detail));
    assert_eq!(tag.year, Some(1999));
    assert_eq!(tag.release_date, Some("unknown".to_owned()));
}

#[test]
fn query_urls_are_exact() {
    assert_eq!(escape_spaces("a b c"), "a%20b%20c");
    assert_eq!(
        search_url("Song Title", "Some Band"),
        "https://musicbrainz.org/ws/2/recording?query=Song%20Title%20AND%20artist:Some%20Band&fmt=json"
    );
    assert_eq!(
        detail_url("id1"),
        "https://musicbrainz.org/ws/2/recording/id1?inc=artist-credits+isrcs+releases+release-groups+discids&fmt=json"
    );
    assert_eq!(cover_url("rel9"), "https://coverartarchive.org/release/rel9");
}
