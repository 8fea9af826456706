use otoge::chunithm::models::{Category, DataStore, Song};
use otoge::ongeki::models as om;
use otoge::shared::traits::DataStore as DataStoreTrait;

fn song(id: &str, title: &str, category: &str) -> Song {
    Song {
        id: id.to_string(),
        title: title.to_string(),
        title_reading: title.to_string(),
        artist: "artist".to_string(),
        image: "cover.png".to_string(),
        category: category.to_string(),
        is_new: false,
        levels: None,
        worlds_end: None,
    }
}

fn store(songs: Vec<Song>, last_updated: i64) -> DataStore {
    DataStore {
        name: "chunithm_jp".to_string(),
        count: songs.len(),
        last_updated,
        songs,
        categories: vec![Category {
            slug: "original".to_string(),
            name: "ORIGINAL".to_string(),
        }],
    }
}

#[test]
fn diff_is_false_on_itself() {
    let s = store(vec![song("1", "alpha", "ORIGINAL"), song("2", "beta", "ORIGINAL")], 7);
    assert!(!s.data_differs(&s));
}

#[test]
fn diff_ignores_the_timestamp() {
    let a = store(vec![song("1", "alpha", "ORIGINAL")], 1000);
    let b = store(vec![song("1", "alpha", "ORIGINAL")], 2000);
    assert!(!a.data_differs(&b));
    assert!(!b.data_differs(&a));
}

#[test]
fn diff_detects_an_appended_song() {
    let a = store(vec![song("1", "alpha", "ORIGINAL")], 0);
    let b = store(vec![song("1", "alpha", "ORIGINAL"), song("2", "beta", "ORIGINAL")], 0);
    assert!(a.data_differs(&b));
    assert!(b.data_differs(&a));
}

#[test]
fn diff_detects_a_reordering() {
    let a = store(vec![song("1", "alpha", "ORIGINAL"), song("2", "beta", "ORIGINAL")], 0);
    let b = store(vec![song("2", "beta", "ORIGINAL"), song("1", "alpha", "ORIGINAL")], 0);
    assert!(a.data_differs(&b));
}

#[test]
fn diff_detects_a_changed_field() {
    let a = store(vec![song("1", "alpha", "ORIGINAL")], 0);
    let mut changed = song("1", "alpha", "ORIGINAL");
    changed.is_new = true;
    let b = store(vec![changed], 0);
    assert!(a.data_differs(&b));
}

#[test]
fn diff_detects_a_changed_category_list() {
    let a = store(vec![song("1", "alpha", "ORIGINAL")], 0);
    let mut b = store(vec![song("1", "alpha", "ORIGINAL")], 0);
    b.categories[0].name = "VARIETY".to_string();
    assert!(a.data_differs(&b));
}

#[test]
fn ongeki_diff_ignores_categories() {
    let song = om::Song {
        id: "1".to_string(),
        title: "alpha".to_string(),
        title_reading: "alpha".to_string(),
        artist: "artist".to_string(),
        date: otoge::shared::dates::Date { year: 2023, month: 1, day: 2 },
        image: "cover.png".to_string(),
        is_new: false,
        is_lunatic: false,
        is_bonus_track: false,
        copyright: None,
        chapter: None,
        category: om::CategoryInSong { id: "06".to_string(), name: "オンゲキ".to_string() },
        levels: None,
        character: None,
    };
    let a = om::DataStore {
        name: "ongeki".to_string(),
        count: 1,
        last_updated: 0,
        songs: vec![song],
        categories: vec![],
    };
    let mut b = om::DataStore {
        name: "ongeki".to_string(),
        count: 1,
        last_updated: 5,
        songs: Vec::new(),
        categories: vec![om::Category {
            id: "06".to_string(),
            slug: "ongeki".to_string(),
            name: "オンゲキ".to_string(),
        }],
    };
    b.songs.push(om::Song { title: "alpha".to_string(), ..make_ongeki_clone(&a.songs[0]) });
    assert!(!a.data_differs(&b));
}

fn make_ongeki_clone(s: &otoge::ongeki::models::Song) -> otoge::ongeki::models::Song {
    otoge::ongeki::models::Song {
        id: s.id.clone(),
        title: s.title.clone(),
        title_reading: s.title_reading.clone(),
        artist: s.artist.clone(),
        date: s.date,
        image: s.image.clone(),
        is_new: s.is_new,
        is_lunatic: s.is_lunatic,
        is_bonus_track: s.is_bonus_track,
        copyright: s.copyright.clone(),
        chapter: None,
        category: otoge::ongeki::models::CategoryInSong {
            id: s.category.id.clone(),
            name: s.category.name.clone(),
        },
        levels: None,
        character: None,
    }
}
