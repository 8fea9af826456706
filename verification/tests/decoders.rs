use otoge::chunithm::deserializers::{empty_levels_as_none, empty_worlds_end_as_none};
use otoge::chunithm::models::{LevelMap, WorldsEndInfo};
use otoge::ongeki::dash_string_as_none;
use otoge::shared::dates::Date;
use otoge::shared::deserializers::{
    bool_from_option_string, bool_from_string, empty_string_as_none,
};
use otoge::shared::errors::DecodeError;
use otoge::shared::numbers::parse_usize;

#[test]
fn bool_token_one_is_true() {
    assert_eq!(bool_from_string("1").unwrap(), true);
}

#[test]
fn bool_token_new_is_true() {
    assert_eq!(bool_from_string("NEW").unwrap(), true);
}

#[test]
fn bool_token_zero_is_false() {
    assert_eq!(bool_from_string("0").unwrap(), false);
}

#[test]
fn bool_token_empty_is_false() {
    assert_eq!(bool_from_string("").unwrap(), false);
}

#[test]
fn bool_token_unknown_is_an_error() {
    match bool_from_string("yes") {
        Err(DecodeError::UnknownBoolToken(t)) => assert_eq!(t, "yes"),
        other => panic!("expected an unknown-token error, got {:?}", other.is_ok()),
    }
}

#[test]
fn optional_bool_new_is_true() {
    assert_eq!(bool_from_option_string(&Some("NEW".to_string())).unwrap(), true);
}

#[test]
fn optional_bool_checkmark_is_true() {
    assert_eq!(bool_from_option_string(&Some("○".to_string())).unwrap(), true);
}

#[test]
fn optional_bool_absent_is_false() {
    assert_eq!(bool_from_option_string(&None).unwrap(), false);
}

#[test]
fn optional_bool_empty_token_is_an_error() {
    assert!(bool_from_option_string(&Some(String::new())).is_err());
}

#[test]
fn empty_string_collapses_to_none() {
    assert_eq!(empty_string_as_none(Some(String::new())), None);
    assert_eq!(empty_string_as_none(None), None);
    assert_eq!(empty_string_as_none(Some("13+".to_string())), Some("13+".to_string()));
}

#[test]
fn dash_collapses_to_none() {
    assert_eq!(dash_string_as_none(Some("-".to_string())), None);
    assert_eq!(dash_string_as_none(None), None);
    assert_eq!(dash_string_as_none(Some("SEGA".to_string())), Some("SEGA".to_string()));
}

#[test]
fn maimai_release_sentinel_is_absent() {
    assert_eq!(otoge::maimai::models::Song::from_api(&maimai_raw("000000")).unwrap().release, None);
}

#[test]
fn maimai_release_parses_compact_date() {
    let song = otoge::maimai::models::Song::from_api(&maimai_raw("231215")).unwrap();
    assert_eq!(song.release, Some(Date { year: 2023, month: 12, day: 15 }));
}

#[test]
fn maimai_release_garbage_is_an_error() {
    match otoge::maimai::models::Song::from_api(&maimai_raw("15 Dec")) {
        Err(DecodeError::BadDate(t)) => assert_eq!(t, "15 Dec"),
        other => panic!("expected a bad-date error, got {:?}", other.is_ok()),
    }
}

#[test]
fn ongeki_date_parses_full_year() {
    assert_eq!(
        otoge::ongeki::deserialize_date("20231215").unwrap(),
        Date { year: 2023, month: 12, day: 15 }
    );
}

#[test]
fn ongeki_date_rejects_out_of_range() {
    assert!(otoge::ongeki::deserialize_date("20231345").is_err());
}

#[test]
fn parse_usize_reads_decimal_digits() {
    assert_eq!(parse_usize("0").unwrap(), 0);
    assert_eq!(parse_usize("42").unwrap(), 42);
    assert_eq!(parse_usize("007").unwrap(), 7);
}

#[test]
fn parse_usize_rejects_non_digits() {
    assert!(parse_usize("").is_err());
    assert!(parse_usize("4a").is_err());
    assert!(parse_usize("-3").is_err());
}

#[test]
fn all_default_level_map_collapses() {
    let levels = LevelMap { basic: None, advanced: None, expert: None, master: None, ultima: None };
    assert_eq!(empty_levels_as_none(levels), None);
}

#[test]
fn one_present_tier_is_kept() {
    let levels = LevelMap {
        basic: None,
        advanced: None,
        expert: Some("13".to_string()),
        master: None,
        ultima: None,
    };
    let kept = empty_levels_as_none(levels).expect("a partly filled map must stay present");
    assert_eq!(kept.expert, Some("13".to_string()));
    assert_eq!(kept.basic, None);
}

#[test]
fn all_default_worlds_end_collapses() {
    let we = WorldsEndInfo { kanji: String::new(), star: String::new() };
    assert_eq!(empty_worlds_end_as_none(we), None);
}

#[test]
fn partial_worlds_end_is_kept() {
    let we = WorldsEndInfo { kanji: "狂".to_string(), star: String::new() };
    let kept = empty_worlds_end_as_none(we).expect("a partly filled record must stay present");
    assert_eq!(kept.kanji, "狂");
}

fn maimai_raw(release: &str) -> otoge::maimai::models::SongFromAPI {
    otoge::maimai::models::SongFromAPI {
        sort: "1".to_string(),
        title: "t".to_string(),
        title_kana: "t".to_string(),
        artist: "a".to_string(),
        image_url: "i.png".to_string(),
        catcode: "maimai".to_string(),
        release: release.to_string(),
        version: "v".to_string(),
        date: None,
        key: None,
        buddy: None,
        lev_bas: "3".to_string(),
        lev_adv: String::new(),
        lev_exp: String::new(),
        lev_mas: String::new(),
        lev_remas: String::new(),
        dx_lev_bas: String::new(),
        dx_lev_adv: String::new(),
        dx_lev_exp: String::new(),
        dx_lev_mas: String::new(),
        dx_lev_remas: String::new(),
        lev_utage: String::new(),
        kanji: String::new(),
        comment: String::new(),
    }
}
