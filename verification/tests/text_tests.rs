use azul_box::colors::hex_of_rgb;
use azul_box::colors::parse_hex_color;
use azul_box::contains_str;
use azul_box::copy_range;
use azul_box::ends_with;
use azul_box::find_char_from;
use azul_box::i8_to_string;
use azul_box::parse_i8;
use azul_box::parse_u32;
use azul_box::split_on_char;
use azul_box::starts_with;
use azul_box::str_eq;
use azul_box::u32_to_string;
use azul_box::version_check::match_version;
use azul_box::version_check::parse_version_tag;
use azul_box::version_check::remove_char;
use azul_box::version_check::version_outcome;

#[test]
fn number_to_text_is_exact() {
    assert_eq!(u32_to_string(0), "0");
    assert_eq!(u32_to_string(7), "7");
    assert_eq!(u32_to_string(2019), "2019");
    assert_eq!(u32_to_string(4294967295), "4294967295");
    assert_eq!(i8_to_string(0), "0");
    assert_eq!(i8_to_string(10), "10");
    assert_eq!(i8_to_string(-5), "-5");
    assert_eq!(i8_to_string(-128), "-128");
    assert_eq!(i8_to_string(127), "127");
}

#[test]
fn text_to_number_rejects_junk() {
    assert_eq!(parse_u32("2019"), Some(2019));
    assert_eq!(parse_u32("0"), Some(0));
    assert_eq!(parse_u32(""), None);
    assert_eq!(parse_u32("12a"), None);
    assert_eq!(parse_u32("4294967295"), Some(4294967295));
    assert_eq!(parse_u32("4294967296"), None);
    assert_eq!(parse_i8("90"), Some(90));
    assert_eq!(parse_i8("-128"), Some(-128));
    assert_eq!(parse_i8("128"), None);
    assert_eq!(parse_i8("-129"), None);
    assert_eq!(parse_i8("-"), None);
}

#[test]
fn hex_colors_round_trip() {
    assert_eq!(parse_hex_color("#FFAA00"), Some((255, 170, 0)));
    assert_eq!(parse_hex_color("ffaa00"), Some((255, 170, 0)));
    assert_eq!(parse_hex_color("##102030"), Some((16, 32, 48)));
    assert_eq!(parse_hex_color("#"), None);
    assert_eq!(parse_hex_color("#GGHHII"), None);
    assert_eq!(hex_of_rgb(255, 170, 0), "#FFAA00");
    assert_eq!(hex_of_rgb(0, 0, 0), "#000000");
    let (r, g, b) = parse_hex_color(&hex_of_rgb(16, 32, 48)).unwrap();
    assert_eq!((r, g, b), (16, 32, 48));
}

#[test]
fn search_helpers_behave_like_their_specs() {
    assert!(starts_with("[Exec] run", "[Exec]"));
    assert!(!starts_with("[E", "[Exec]"));
    assert!(ends_with("Song.opus", ".opus"));
    assert!(!ends_with("Song.opus", ".mp3"));
    assert!(contains_str("a Song here", "Song"));
    assert!(!contains_str("a Song here", "song"));
    assert!(str_eq("abc", "abc"));
    assert!(!str_eq("abc", "abd"));
    assert_eq!(find_char_from("a-b-c", '-', 0), 1);
    assert_eq!(find_char_from("a-b-c", '-', 2), 3);
    assert_eq!(find_char_from("a-b-c", 'x', 0), 5);
    assert_eq!(copy_range("hello", 1, 4), "ell");
}

#[test]
fn split_keeps_every_piece() {
    assert_eq!(split_on_char("1.2.3", '.'), vec!["1", "2", "3"]);
    assert_eq!(split_on_char("a..b", '.'), vec!["a", "", "b"]);
    assert_eq!(split_on_char("", '.'), vec![""]);
}

#[test]
fn version_comparison_takes_first_difference() {
    assert_eq!(match_version(vec![1, 2, 3], Some(vec![1, 2, 3])), None);
    assert_eq!(match_version(vec![1, 2, 4], Some(vec![1, 2, 3])), Some(true));
    assert_eq!(match_version(vec![1, 2, 2], Some(vec![1, 2, 3])), Some(false));
    assert_eq!(match_version(vec![2, 0, 0], Some(vec![1, 9, 9])), Some(true));
    assert_eq!(match_version(vec![1, 2, 3], None), None);
    assert_eq!(match_version(vec![1, 2], Some(vec![1, 2, 3])), None);
    assert_eq!(version_outcome(vec![1, 0], Some(vec![1, 1])), -1);
    assert_eq!(version_outcome(vec![1, 1], Some(vec![1, 0])), 1);
    assert_eq!(version_outcome(vec![1, 1], None), 0);
}

#[test]
fn release_tags_parse_with_v_shed() {
    assert_eq!(parse_version_tag("v1.2.3"), Some(vec![1, 2, 3]));
    assert_eq!(parse_version_tag("1.0.12"), Some(vec![1, 0, 12]));
    assert_eq!(parse_version_tag("v1.beta.3"), None);
    assert_eq!(remove_char("v1v2", 'v'), "12");
}
