use azul_box::tag::tag_changed;
use azul_box::tag::TagKey;
use azul_box::tag::TagValue;
use azul_box::tag::TrackTag;

#[test]
fn field_write_reads_back_and_preserves_others() {
    let mut t = TrackTag::new();
    t.set_field(TagKey::Artist, TagValue::Text("The Band".to_owned()));
    t.set_field(TagKey::Year, TagValue::Number(2001));
    t.set_field(TagKey::Title, TagValue::Text("A Song".to_owned()));
    match t.get_field(TagKey::Title) {
        Some(TagValue::Text(s)) => assert_eq!(s, "A Song"),
        _ => panic!("title not read back"),
    }
    match t.get_field(TagKey::Artist) {
        Some(TagValue::Text(s)) => assert_eq!(s, "The Band"),
        _ => panic!("artist clobbered"),
    }
    match t.get_field(TagKey::Year) {
        Some(TagValue::Number(n)) => assert_eq!(n, 2001),
        _ => panic!("year clobbered"),
    }
    assert!(t.get_field(TagKey::Lyrics).is_none());
}

#[test]
fn wrong_kind_write_is_rejected_without_update() {
    let mut t = TrackTag::new();
    t.set_field(TagKey::Year, TagValue::Number(1990));
    t.set_field(TagKey::Year, TagValue::Text("not a number".to_owned()));
    assert_eq!(t.year, Some(1990));
    t.set_field(TagKey::Title, TagValue::Number(5));
    assert_eq!(t.title, None);
}

#[test]
fn cover_write_replaces_existing_art() {
    let mut t = TrackTag::new();
    t.set_field(TagKey::CoverImage, TagValue::Image(vec![1, 1]));
    t.set_field(TagKey::CoverImage, TagValue::Image(vec![2, 2, 2]));
    assert_eq!(t.cover_image, Some(vec![2, 2, 2]));
}

#[test]
fn unchanged_tag_needs_no_commit() {
    let mut t = TrackTag::new();
    t.title = Some("T".to_owned());
    t.cover_image = Some(vec![9]);
    let before = TrackTag {
        title: t.title.clone(),
        artist: t.artist.clone(),
        album: t.album.clone(),
        year: t.year,
        release_date: t.release_date.clone(),
        track_no: t.track_no,
        track_total: t.track_total,
        disc_no: t.disc_no,
        disc_total: t.disc_total,
        lyrics: t.lyrics.clone(),
        cover_image: t.cover_image.clone(),
    };
    assert!(!tag_changed(&t, &before));
    t.set_field(TagKey::Lyrics, TagValue::Text("la".to_owned()));
    assert!(tag_changed(&t, &before));
}
