use otoge::chunithm;
use otoge::polarischord::RawCategoryOption;
use otoge::chunithm::models::SongFromAPI;
use otoge::orchestrator::{run_failed, SourceOutcome};
use otoge::shared::traits::Otoge;

fn chu_raw(id: usize, category: &str, newflag: &str) -> SongFromAPI {
    SongFromAPI {
        id: id.to_string(),
        title: format!("song {id}"),
        title_reading: format!("song {id}"),
        artist: "artist".to_string(),
        image: "cover.png".to_string(),
        category: category.to_string(),
        newflag: newflag.to_string(),
        lev_bas: "3".to_string(),
        lev_adv: String::new(),
        lev_exp: String::new(),
        lev_mas: String::new(),
        lev_ult: String::new(),
        we_kanji: String::new(),
        we_star: String::new(),
    }
}

const CHU_NAMES: [&str; 7] = [
    "POPS & ANIME",
    "niconico",
    "東方Project",
    "VARIETY",
    "イロドリミドリ",
    "ゲキマイ",
    "ORIGINAL",
];

fn fifty_raws() -> Vec<SongFromAPI> {
    (0..50).map(|i| chu_raw(i, CHU_NAMES[i % 7], "0")).collect()
}

#[test]
fn fresh_source_writes_a_full_snapshot() {
    let plan = chunithm::plan_sync("chunithm_jp", &None, &fifty_raws()).unwrap();
    assert!(plan.write, "with no local snapshot the store must be written");
    assert_eq!(plan.store.count, 50);
    assert_eq!(plan.store.songs.len(), 50);
    assert_eq!(plan.store.name, "chunithm_jp");
}

#[test]
fn identical_local_snapshot_skips_the_write() {
    let first = chunithm::plan_sync("chunithm_jp", &None, &fifty_raws()).unwrap();
    let local = Some(first.store);
    let second = chunithm::plan_sync("chunithm_jp", &local, &fifty_raws()).unwrap();
    assert!(!second.write, "an unchanged song list must not be rewritten");
}

#[test]
fn changed_remote_data_is_written_again() {
    let first = chunithm::plan_sync("chunithm_jp", &None, &fifty_raws()).unwrap();
    let local = Some(first.store);
    let mut raws = fifty_raws();
    raws.push(chu_raw(50, "ORIGINAL", "NEW"));
    let second = chunithm::plan_sync("chunithm_jp", &local, &raws).unwrap();
    assert!(second.write);
    assert_eq!(second.store.count, 51);
}

#[test]
fn one_failing_source_does_not_stop_the_others() {
    let good_jp = chunithm::plan_sync("chunithm_jp", &None, &fifty_raws());
    let mut bad_raws = fifty_raws();
    bad_raws[3].newflag = "perhaps".to_string();
    let bad_intl = chunithm::plan_sync("chunithm_intl", &None, &bad_raws);
    let good_second = chunithm::plan_sync("chunithm_jp", &None, &fifty_raws());

    assert!(bad_intl.is_err());
    let jp = good_jp.unwrap();
    let second = good_second.unwrap();
    assert!(jp.write && second.write);
    assert_eq!(jp.store.count, 50);

    let outcomes = vec![
        SourceOutcome { name: "chunithm_jp".to_string(), ok: true },
        SourceOutcome { name: "chunithm_intl".to_string(), ok: false },
        SourceOutcome { name: "soundvoltex".to_string(), ok: true },
    ];
    assert!(run_failed(&outcomes), "one failed source fails the whole run");

    let all_ok = vec![
        SourceOutcome { name: "chunithm_jp".to_string(), ok: true },
        SourceOutcome { name: "soundvoltex".to_string(), ok: true },
    ];
    assert!(!run_failed(&all_ok));
}

#[test]
fn inconsistent_categories_block_the_write() {
    let mut raws = fifty_raws();
    raws[0].category = "JAZZ".to_string();
    let r = chunithm::plan_sync("chunithm_jp", &None, &raws);
    match r {
        Err(otoge::shared::errors::SyncError::Consistency(m)) => {
            assert_eq!(m.extra.len(), 1);
            assert_eq!(m.extra[0].name, "JAZZ");
        },
        _ => panic!("a category outside the taxonomy must fail the run"),
    }
}

#[test]
fn bitmask_selects_categories_in_taxonomy_order() {
    let raw = otoge::polarischord::models::SongFromAPI {
        music_id: "7".to_string(),
        genre: 0b1010,
        name: "t".to_string(),
        composer: "a".to_string(),
        license: None,
        easy: Some(3),
        normal: Some(0),
        hard: None,
        influence: None,
        polar: None,
    };
    let song = otoge::polarischord::models::Song::from_api(&raw);
    let slugs: Vec<&str> = song.categories.iter().map(|c| c.slug.as_str()).collect();
    assert_eq!(slugs, vec!["social", "touhou"]);
    assert_eq!(song.levels.easy, Some(3));
    assert_eq!(song.levels.normal, None, "a zero level is the absent sentinel");
}

#[test]
fn polarischord_plan_requires_the_exact_taxonomy() {
    let fetched = otoge::polarischord::get_all_categories();
    let plan = otoge::polarischord::plan_sync("polarischord", &None, &Vec::new(), fetched)
        .unwrap();
    assert!(plan.write);
    assert_eq!(plan.store.count, 0);

    let mut reordered = otoge::polarischord::get_all_categories();
    reordered.swap(0, 1);
    let r = otoge::polarischord::plan_sync("polarischord", &None, &Vec::new(), reordered);
    assert!(r.is_err(), "a reordered authoritative list must fail the run");
}

#[test]
fn storage_paths_derive_from_the_source_name() {
    assert_eq!(chunithm::ChunithmJP::name(), "chunithm_jp");
    assert_eq!(chunithm::ChunithmJP::data_path(Some("./data")), "./data/chunithm_jp");
    assert_eq!(
        chunithm::ChunithmIntl::music_data_store_path(Some("./data")),
        "./data/chunithm_intl/music.toml"
    );
    assert_eq!(otoge::ongeki::Ongeki::music_data_store_path(None), "ongeki/music.toml");
}

#[test]
fn taxonomies_list_the_expected_entries() {
    let chu = chunithm::get_all_categories();
    assert_eq!(chu.len(), 7);
    assert_eq!(chu[0].slug, "pops_anime");
    assert_eq!(chu[6].name, "ORIGINAL");

    let jp = otoge::maimai::get_all_jp_categories();
    let intl = otoge::maimai::get_all_intl_categories();
    assert_eq!(jp.len(), 6);
    assert_eq!(intl.len(), 6);
    assert_eq!(jp[0].name, "POPS＆アニメ");
    assert_eq!(intl[0].name, "POPS＆ANIME");

    let ongeki = otoge::ongeki::get_all_categories();
    assert_eq!(ongeki.len(), 6);
    assert_eq!(ongeki[0].id, "06");

    let sdvx = otoge::soundvoltex::get_all_categories();
    assert_eq!(sdvx.len(), 8);
    assert_eq!(sdvx[5].name, "FLOOR");

    let pc = otoge::polarischord::get_all_categories();
    assert_eq!(pc.len(), 6);
    assert_eq!(pc[2].slug, "pops&anime");
}

#[test]
fn scraped_selector_options_become_categories() {
    let options = vec![
        RawCategoryOption {
            data_index: "0".to_string(),
            value: "all".to_string(),
            text: "すべて".to_string(),
        },
        RawCategoryOption {
            data_index: "1".to_string(),
            value: "virtual".to_string(),
            text: "Virtual".to_string(),
        },
        RawCategoryOption {
            data_index: "2".to_string(),
            value: "social".to_string(),
            text: "ソーシャルミュージック".to_string(),
        },
    ];
    let cats = otoge::polarischord::categories_from_options(&options).unwrap();
    assert_eq!(cats.len(), 2, "the catch-all entry is skipped");
    assert_eq!(cats[0].bitflag, 1);
    assert_eq!(cats[0].slug, "virtual");
    assert_eq!(cats[1].name, "ソーシャルミュージック");

    let bad = vec![RawCategoryOption {
        data_index: "one".to_string(),
        value: "virtual".to_string(),
        text: "Virtual".to_string(),
    }];
    assert!(otoge::polarischord::categories_from_options(&bad).is_err());
}
