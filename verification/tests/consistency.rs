use otoge::chunithm::models as chu;
use otoge::polarischord::models as pc;
use otoge::soundvoltex::models as sv;

fn chu_song(category: &str) -> chu::Song {
    chu::Song {
        id: "1".to_string(),
        title: "t".to_string(),
        title_reading: "t".to_string(),
        artist: "a".to_string(),
        image: "i.png".to_string(),
        category: category.to_string(),
        is_new: false,
        levels: None,
        worlds_end: None,
    }
}

fn chu_store(declared: &[&str], used: &[&str]) -> chu::DataStore {
    chu::DataStore {
        name: "chunithm_jp".to_string(),
        count: used.len(),
        last_updated: 0,
        songs: used.iter().map(|c| chu_song(c)).collect(),
        categories: declared
            .iter()
            .map(|c| chu::Category { slug: c.to_lowercase(), name: c.to_string() })
            .collect(),
    }
}

#[test]
fn set_mode_reports_an_extra_category() {
    let ds = chu_store(&["A", "B"], &["A", "B", "C"]);
    let m = otoge::chunithm::verify_categories(&ds).unwrap_err();
    assert_eq!(m.extra.len(), 1);
    assert_eq!(m.extra[0].name, "C");
    assert_eq!(m.missing.len(), 0);
}

#[test]
fn set_mode_reports_a_missing_category() {
    let ds = chu_store(&["A", "B"], &["A"]);
    let m = otoge::chunithm::verify_categories(&ds).unwrap_err();
    assert_eq!(m.extra.len(), 0);
    assert_eq!(m.missing.len(), 1);
    assert_eq!(m.missing[0].name, "B");
}

#[test]
fn set_mode_accepts_matching_sets() {
    let ds = chu_store(&["A", "B"], &["B", "A", "B"]);
    assert!(otoge::chunithm::verify_categories(&ds).is_ok());
}

fn pc_cat(bitflag: u32, slug: &str, name: &str) -> pc::Category {
    pc::Category { bitflag, slug: slug.to_string(), name: name.to_string() }
}

fn pc_store(categories: Vec<pc::Category>) -> pc::DataStore {
    pc::DataStore {
        name: "polarischord".to_string(),
        count: 0,
        last_updated: 0,
        songs: Vec::new(),
        categories,
    }
}

#[test]
fn exact_mode_rejects_a_reordered_list() {
    let ds = pc_store(vec![pc_cat(1, "x", "X"), pc_cat(2, "y", "Y")]);
    let fetched = vec![pc_cat(2, "y", "Y"), pc_cat(1, "x", "X")];
    let m = otoge::polarischord::verify_categories(&ds, fetched).unwrap_err();
    assert_eq!(m.declared.len(), 2);
    assert_eq!(m.fetched.len(), 2);
    assert_eq!(m.declared[0].slug, "x");
    assert_eq!(m.fetched[0].slug, "y");
}

#[test]
fn exact_mode_accepts_an_identical_list() {
    let ds = pc_store(vec![pc_cat(1, "x", "X"), pc_cat(2, "y", "Y")]);
    let fetched = vec![pc_cat(1, "x", "X"), pc_cat(2, "y", "Y")];
    assert!(otoge::polarischord::verify_categories(&ds, fetched).is_ok());
}

#[test]
fn exact_mode_rejects_a_renamed_entry() {
    let ds = pc_store(vec![pc_cat(1, "x", "X")]);
    let fetched = vec![pc_cat(1, "x", "X renamed")];
    assert!(otoge::polarischord::verify_categories(&ds, fetched).is_err());
}

fn sv_song_with(categories: Vec<sv::Category>) -> sv::Song {
    sv::Song {
        image: "i.png".to_string(),
        title: "t".to_string(),
        artist: "a".to_string(),
        categories,
        levels: sv::LevelMap {
            novice: None,
            advanced: None,
            exhaust: None,
            maximum: None,
            infinite: None,
            gravity: None,
            heavenly: None,
            vivid: None,
            exceed: None,
        },
    }
}

#[test]
fn pair_mode_distinguishes_same_id_different_name() {
    let ds = sv::DataStore {
        name: "soundvoltex".to_string(),
        count: 1,
        last_updated: 0,
        songs: vec![sv_song_with(vec![sv::Category {
            id: "floor".to_string(),
            name: "FLOOR 2024".to_string(),
        }])],
        categories: vec![sv::Category { id: "floor".to_string(), name: "FLOOR".to_string() }],
    };
    let m = otoge::soundvoltex::verify_categories(&ds).unwrap_err();
    assert_eq!(m.extra.len(), 1);
    assert_eq!(m.extra[0].name, "FLOOR 2024");
    assert_eq!(m.missing.len(), 1);
    assert_eq!(m.missing[0].name, "FLOOR");
}

#[test]
fn pair_mode_flattens_multi_membership() {
    let ds = sv::DataStore {
        name: "soundvoltex".to_string(),
        count: 1,
        last_updated: 0,
        songs: vec![sv_song_with(vec![
            sv::Category { id: "floor".to_string(), name: "FLOOR".to_string() },
            sv::Category { id: "sdvx".to_string(), name: "SDVXオリジナル".to_string() },
        ])],
        categories: vec![
            sv::Category { id: "floor".to_string(), name: "FLOOR".to_string() },
            sv::Category { id: "sdvx".to_string(), name: "SDVXオリジナル".to_string() },
        ],
    };
    assert!(otoge::soundvoltex::verify_categories(&ds).is_ok());
}
