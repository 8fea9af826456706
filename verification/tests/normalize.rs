use otoge::extractors::soundvoltex_vi::{FetchedPage, MusicEntry, RawGenre, RawLevel, SoundVoltexVIExtractor};
use otoge::maimai;
use otoge::ongeki;
use otoge::shared::dates::Date;

fn ongeki_raw(id: usize, category_id: &str, category: &str) -> ongeki::models::SongFromAPI {
    ongeki::models::SongFromAPI {
        id: id.to_string(),
        title: format!("song {id}"),
        title_sort: format!("song {id}"),
        artist: "artist".to_string(),
        date: "20231215".to_string(),
        new: "0".to_string(),
        lunatic: "0".to_string(),
        bonus: "1".to_string(),
        image_url: "cover.png".to_string(),
        copyright1: Some("-".to_string()),
        chap_id: String::new(),
        chapter: String::new(),
        category_id: category_id.to_string(),
        category: category.to_string(),
        chara_id: "c1".to_string(),
        character: String::new(),
        lev_bas: String::new(),
        lev_adv: String::new(),
        lev_exp: String::new(),
        lev_mas: String::new(),
        lev_lnt: "14".to_string(),
    }
}

#[test]
fn ongeki_normalization_collapses_defaults() {
    let song = ongeki::models::Song::from_api(&ongeki_raw(1, "06", "オンゲキ")).unwrap();
    assert_eq!(song.date, Date { year: 2023, month: 12, day: 15 });
    assert_eq!(song.copyright, None, "a dash copyright is absent");
    assert_eq!(song.chapter, None, "an all-empty chapter collapses");
    let character = song.character.expect("a partly filled character is kept");
    assert_eq!(character.id, Some("c1".to_string()));
    assert_eq!(character.name, None);
    let levels = song.levels.expect("one present tier keeps the map");
    assert_eq!(levels.lunatic, Some("14".to_string()));
    assert!(song.is_bonus_track && !song.is_new && !song.is_lunatic);
}

#[test]
fn ongeki_plan_checks_identifier_sets() {
    let ids = ["06", "01", "02", "03", "04", "05"];
    let raws: Vec<_> = (0..6).map(|i| ongeki_raw(i, ids[i], "name")).collect();
    let plan = ongeki::plan_sync("ongeki", &None, &raws).unwrap();
    assert!(plan.write);
    assert_eq!(plan.store.count, 6);

    let partial: Vec<_> = (0..5).map(|i| ongeki_raw(i, ids[i], "name")).collect();
    match ongeki::plan_sync("ongeki", &None, &partial) {
        Err(otoge::shared::errors::SyncError::Consistency(m)) => {
            assert_eq!(m.missing.len(), 1);
            assert_eq!(m.missing[0].id, "05");
        },
        _ => panic!("an unused taxonomy identifier must fail the run"),
    }
}

fn maimai_raw(id: usize, catname: &str) -> maimai::models::SongFromAPI {
    maimai::models::SongFromAPI {
        sort: id.to_string(),
        title: format!("song {id}"),
        title_kana: format!("song {id}"),
        artist: "artist".to_string(),
        image_url: "cover.png".to_string(),
        catcode: catname.to_string(),
        release: "000000".to_string(),
        version: "BUDDiES".to_string(),
        date: None,
        key: Some("○".to_string()),
        buddy: None,
        lev_bas: "3".to_string(),
        lev_adv: String::new(),
        lev_exp: String::new(),
        lev_mas: String::new(),
        lev_remas: String::new(),
        dx_lev_bas: String::new(),
        dx_lev_adv: String::new(),
        dx_lev_exp: String::new(),
        dx_lev_mas: String::new(),
        dx_lev_remas: String::new(),
        lev_utage: String::new(),
        kanji: String::new(),
        comment: String::new(),
    }
}

#[test]
fn maimai_normalization_collapses_defaults() {
    let song = maimai::models::Song::from_api(&maimai_raw(1, "maimai")).unwrap();
    assert!(song.is_locked, "a checkmark key means locked");
    assert!(!song.is_new, "an absent date flag means not new");
    assert_eq!(song.dx_levels, None, "an all-empty DX map collapses");
    assert_eq!(song.utage, None, "an all-empty utage record collapses");
    let levels = song.levels.expect("one present tier keeps the map");
    assert_eq!(levels.basic, Some("3".to_string()));
}

#[test]
fn maimai_plan_uses_the_given_taxonomy() {
    let names = [
        "POPS＆アニメ",
        "niconico＆ボーカロイド",
        "東方Project",
        "ゲーム＆バラエティ",
        "maimai",
        "オンゲキ＆CHUNITHM",
    ];
    let raws: Vec<_> = (0..6).map(|i| maimai_raw(i, names[i])).collect();
    let plan = maimai::plan_sync(
        "maimai_jp",
        &None,
        &raws,
        maimai::get_all_jp_categories(),
    )
    .unwrap();
    assert!(plan.write);
    assert_eq!(plan.store.count, 6);

    // the same songs against the international list disagree on names
    let r = maimai::plan_sync("maimai_intl", &None, &raws, maimai::get_all_intl_categories());
    assert!(r.is_err());
}

#[test]
fn soundvoltex_plan_reassembles_pages() {
    let entry = |title: &str, id: &str, name: &str| MusicEntry {
        image: format!("{title}.png"),
        title: title.to_string(),
        artist: "artist".to_string(),
        genres: vec![RawGenre { id: id.to_string(), name: name.to_string() }],
        levels: vec![RawLevel { kind: "nov".to_string(), value: "2".to_string() }],
    };
    let taxonomy = otoge::soundvoltex::get_all_categories();
    let mut pages: Vec<FetchedPage> = Vec::new();
    // later pages arrive first; each page covers one slice of the taxonomy
    let p2 = SoundVoltexVIExtractor::process_page(
        2,
        &taxonomy[4..].iter().map(|c| entry(&c.id, &c.id, &c.name)).collect(),
    )
    .unwrap();
    let p1 = SoundVoltexVIExtractor::process_page(
        1,
        &taxonomy[..4].iter().map(|c| entry(&c.id, &c.id, &c.name)).collect(),
    )
    .unwrap();
    pages.push(p2);
    pages.push(p1);
    let plan = otoge::soundvoltex::plan_sync("soundvoltex", &None, pages).unwrap();
    assert!(plan.write);
    assert_eq!(plan.store.count, 8);
    assert_eq!(plan.store.songs[0].title, "pops", "page order wins over arrival order");
}
