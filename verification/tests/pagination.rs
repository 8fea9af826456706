use otoge::extractors::soundvoltex_vi::{
    FetchedPage, MusicEntry, RawGenre, RawLevel, SoundVoltexVIExtractor,
};
use otoge::shared::errors::DecodeError;
use otoge::soundvoltex::models::Song;

fn sv_song(title: &str) -> Song {
    Song {
        image: format!("{title}.png"),
        title: title.to_string(),
        artist: "artist".to_string(),
        categories: Vec::new(),
        levels: otoge::soundvoltex::models::LevelMap {
            novice: None,
            advanced: None,
            exhaust: None,
            maximum: None,
            infinite: None,
            gravity: None,
            heavenly: None,
            vivid: None,
            exceed: None,
        },
    }
}

fn page(num: usize, titles: &[&str]) -> FetchedPage {
    FetchedPage { page_num: num, songs: titles.iter().map(|t| sv_song(t)).collect() }
}

fn assembled_titles(pages: Vec<FetchedPage>) -> Vec<String> {
    SoundVoltexVIExtractor::assemble_pages(pages).into_iter().map(|s| s.title).collect()
}

#[test]
fn assembly_is_independent_of_completion_order() {
    let sequential = assembled_titles(vec![
        page(1, &["a1", "a2"]),
        page(2, &["b1"]),
        page(3, &["c1", "c2"]),
    ]);
    let orders: [[usize; 3]; 3] = [[2, 1, 3], [1, 3, 2], [3, 2, 1]];
    for order in orders {
        let pages = order
            .iter()
            .map(|n| match n {
                1 => page(1, &["a1", "a2"]),
                2 => page(2, &["b1"]),
                _ => page(3, &["c1", "c2"]),
            })
            .collect();
        assert_eq!(assembled_titles(pages), sequential);
    }
    assert_eq!(sequential, vec!["a1", "a2", "b1", "c1", "c2"]);
}

#[test]
fn page_count_takes_the_largest_option() {
    let options = vec!["1".to_string(), "10".to_string(), "3".to_string()];
    assert_eq!(SoundVoltexVIExtractor::parse_page_count(&options).unwrap(), 10);
}

#[test]
fn page_count_of_an_empty_selector_is_zero() {
    assert_eq!(SoundVoltexVIExtractor::parse_page_count(&Vec::new()).unwrap(), 0);
}

#[test]
fn page_count_rejects_a_non_numeric_option() {
    let options = vec!["1".to_string(), "next".to_string()];
    assert!(SoundVoltexVIExtractor::parse_page_count(&options).is_err());
}

#[test]
fn entry_levels_and_genres_are_mapped() {
    let entry = MusicEntry {
        image: "jacket.png".to_string(),
        title: "song".to_string(),
        artist: "artist".to_string(),
        genres: vec![
            RawGenre { id: "floor".to_string(), name: "FLOOR".to_string() },
            RawGenre { id: "sdvx".to_string(), name: "SDVXオリジナル".to_string() },
        ],
        levels: vec![
            RawLevel { kind: "nov".to_string(), value: "2".to_string() },
            RawLevel { kind: "mxm".to_string(), value: "18".to_string() },
        ],
    };
    let p = SoundVoltexVIExtractor::process_page(4, &vec![entry]).unwrap();
    assert_eq!(p.page_num, 4);
    assert_eq!(p.songs.len(), 1);
    let song = &p.songs[0];
    assert_eq!(song.levels.novice, Some("2".to_string()));
    assert_eq!(song.levels.maximum, Some("18".to_string()));
    assert_eq!(song.levels.exceed, None);
    assert_eq!(song.categories.len(), 2);
    assert_eq!(song.categories[0].id, "floor");
    assert_eq!(song.categories[1].name, "SDVXオリジナル");
}

#[test]
fn unknown_level_label_fails_the_page() {
    let entry = MusicEntry {
        image: "jacket.png".to_string(),
        title: "song".to_string(),
        artist: "artist".to_string(),
        genres: Vec::new(),
        levels: vec![RawLevel { kind: "ultra".to_string(), value: "20".to_string() }],
    };
    match SoundVoltexVIExtractor::process_page(1, &vec![entry]) {
        Err(DecodeError::UnknownLevelKind(t)) => assert_eq!(t, "ultra"),
        other => panic!("expected an unknown-level error, got {:?}", other.is_ok()),
    }
}

#[test]
fn later_duplicate_level_label_wins() {
    let entry = MusicEntry {
        image: "jacket.png".to_string(),
        title: "song".to_string(),
        artist: "artist".to_string(),
        genres: Vec::new(),
        levels: vec![
            RawLevel { kind: "exh".to_string(), value: "14".to_string() },
            RawLevel { kind: "exh".to_string(), value: "15".to_string() },
        ],
    };
    let p = SoundVoltexVIExtractor::process_page(1, &vec![entry]).unwrap();
    assert_eq!(p.songs[0].levels.exhaust, Some("15".to_string()));
}
