//! The two CHUNITHM sources (Japan and international).  Both share the
//! same wire schema, canonical records, and fixed category taxonomy.

pub mod deserializers;
pub mod models;

use vstd::prelude::*;
use vstd::string::StringExecFns;

use crate::shared::consistency::{
    check_key_sets, spec_report_names_contain, spec_same_key_sets, CategoryKey, CategoryMismatch,
};
use crate::shared::deserializers::spec_bool_token_ok;
use crate::shared::errors::{DecodeError, SyncError};
use crate::shared::traits::{DataStore as DataStoreTrait, Otoge};

use models::{
    normalize_songs, spec_normalized_seq_eq, spec_raws_ok, spec_store_wf, Category, DataStore,
    Song, SongFromAPI,
};

verus! {

/// The Japanese CHUNITHM service.
pub struct ChunithmJP;

impl Otoge for ChunithmJP {
    open spec fn spec_name() -> Seq<char> {
        "chunithm_jp"@
    }

    fn name() -> (r: &'static str) {
        "chunithm_jp"
    }
}

/// The international CHUNITHM service.
pub struct ChunithmIntl;

impl Otoge for ChunithmIntl {
    open spec fn spec_name() -> Seq<char> {
        "chunithm_intl"@
    }

    fn name() -> (r: &'static str) {
        "chunithm_intl"
    }
}

/// The fixed CHUNITHM taxonomy, entry by entry.
pub open spec fn spec_all_categories(s: Seq<Category>) -> bool {
    s.len() == 7 && s[0].slug@ == "pops_anime"@ && s[0].name@ == "POPS & ANIME"@
        && s[1].slug@ == "niconico"@ && s[1].name@ == "niconico"@
        && s[2].slug@ == "toho"@ && s[2].name@ == "東方Project"@
        && s[3].slug@ == "variety"@ && s[3].name@ == "VARIETY"@
        && s[4].slug@ == "irodorimidori"@ && s[4].name@ == "イロドリミドリ"@
        && s[5].slug@ == "gekimai"@ && s[5].name@ == "ゲキマイ"@
        && s[6].slug@ == "original"@ && s[6].name@ == "ORIGINAL"@
}

/// The fixed category taxonomy shared by both CHUNITHM sources.
pub fn get_all_categories() -> (r: Vec<Category>)
    ensures
        spec_all_categories(r@),
{
    let mut v: Vec<Category> = Vec::new();
    v.push(Category {
        slug: String::from_str("pops_anime"),
        name: String::from_str("POPS & ANIME"),
    });
    v.push(Category { slug: String::from_str("niconico"), name: String::from_str("niconico") });
    v.push(Category { slug: String::from_str("toho"), name: String::from_str("東方Project") });
    v.push(Category { slug: String::from_str("variety"), name: String::from_str("VARIETY") });
    v.push(Category {
        slug: String::from_str("irodorimidori"),
        name: String::from_str("イロドリミドリ"),
    });
    v.push(Category { slug: String::from_str("gekimai"), name: String::from_str("ゲキマイ") });
    v.push(Category { slug: String::from_str("original"), name: String::from_str("ORIGINAL") });
    v
}

/// Some declared category carries this display name.
pub open spec fn spec_name_declared(cats: Seq<Category>, name: Seq<char>) -> bool {
    exists|i: int| 0 <= i < cats.len() && (#[trigger] cats[i]).name@ == name
}

/// Some song references a category of this display name.
pub open spec fn spec_name_used(songs: Seq<Song>, name: Seq<char>) -> bool {
    exists|i: int| 0 <= i < songs.len() && (#[trigger] songs[i]).category@ == name
}

/// The declared taxonomy and the categories the songs use describe the
/// same name set.
pub open spec fn spec_consistent(cats: Seq<Category>, songs: Seq<Song>) -> bool {
    (forall|i: int| 0 <= i < cats.len() ==> spec_name_used(songs, (#[trigger] cats[i]).name@))
        && (forall|j: int|
        0 <= j < songs.len() ==> spec_name_declared(cats, (#[trigger] songs[j]).category@))
}

/// Set-mode consistency check: the category names the snapshot declares
/// and the names its songs use must be the same set; otherwise both
/// difference sets are reported.
pub fn verify_categories(ds: &DataStore) -> (r: Result<(), CategoryMismatch>)
    ensures
        r is Ok <==> spec_consistent(ds.categories@, ds.songs@),
        r matches Err(m) ==> {
            &&& forall|k: int|
                0 <= k < m.extra@.len() ==> spec_name_used(
                    ds.songs@,
                    (#[trigger] m.extra@[k]).name@,
                ) && !spec_name_declared(ds.categories@, m.extra@[k].name@)
            &&& forall|j: int|
                0 <= j < ds.songs@.len() && !spec_name_declared(
                    ds.categories@,
                    (#[trigger] ds.songs@[j]).category@,
                ) ==> spec_report_names_contain(m.extra@, ds.songs@[j].category@)
            &&& forall|k: int|
                0 <= k < m.missing@.len() ==> spec_name_declared(
                    ds.categories@,
                    (#[trigger] m.missing@[k]).name@,
                ) && !spec_name_used(ds.songs@, m.missing@[k].name@)
            &&& forall|i: int|
                0 <= i < ds.categories@.len() && !spec_name_used(
                    ds.songs@,
                    (#[trigger] ds.categories@[i]).name@,
                ) ==> spec_report_names_contain(m.missing@, ds.categories@[i].name@)
        },
{
    let mut declared: Vec<CategoryKey> = Vec::new();
    for i in 0..ds.categories.len()
        invariant
            declared@.len() == i,
            forall|j: int|
                0 <= j < i ==> (#[trigger] declared@[j]).id@ == ""@ && declared@[j].name@
                    == ds.categories@[j].name@,
    {
        declared.push(
            CategoryKey { id: String::from_str(""), name: ds.categories[i].name.clone() },
        );
    }
    let mut used: Vec<CategoryKey> = Vec::new();
    for i in 0..ds.songs.len()
        invariant
            used@.len() == i,
            forall|j: int|
                0 <= j < i ==> (#[trigger] used@[j]).id@ == ""@ && used@[j].name@
                    == ds.songs@[j].category@,
    {
        used.push(CategoryKey { id: String::from_str(""), name: ds.songs[i].category.clone() });
    }
    let r = check_key_sets(&declared, &used);
    proof {
        lemma_keys_bridge(declared@, used@, ds.categories@, ds.songs@);
    }
    match r {
        Ok(()) => Ok(()),
        Err(m) => {
            proof {
                assert forall|k: int|
                    0 <= k < m.extra@.len() implies spec_name_used(
                    ds.songs@,
                    (#[trigger] m.extra@[k]).name@,
                ) && !spec_name_declared(ds.categories@, m.extra@[k].name@) by {
                    let w = choose|w: int|
                        0 <= w < used@.len() && (#[trigger] used@[w]).id@ == m.extra@[k].id@
                            && used@[w].name@ == m.extra@[k].name@;
                    assert(ds.songs@[w].category@ == m.extra@[k].name@);
                    if spec_name_declared(ds.categories@, m.extra@[k].name@) {
                        let v = choose|v: int|
                            0 <= v < ds.categories@.len() && (#[trigger] ds.categories@[v]).name@
                                == m.extra@[k].name@;
                        assert(declared@[v].id@ == ""@ && declared@[v].name@
                            == m.extra@[k].name@);
                        assert(m.extra@[k].id@ == ""@);
                    }
                }
                assert forall|j: int|
                    0 <= j < ds.songs@.len() && !spec_name_declared(
                        ds.categories@,
                        (#[trigger] ds.songs@[j]).category@,
                    ) implies spec_report_names_contain(m.extra@, ds.songs@[j].category@) by {
                    assert(used@[j].id@ == ""@ && used@[j].name@ == ds.songs@[j].category@);
                    if crate::shared::consistency::spec_keys_contain(
                        declared@,
                        used@[j].id@,
                        used@[j].name@,
                    ) {
                        let v = choose|v: int|
                            0 <= v < declared@.len() && (#[trigger] declared@[v]).id@
                                == used@[j].id@ && declared@[v].name@ == used@[j].name@;
                        assert(ds.categories@[v].name@ == ds.songs@[j].category@);
                        assert(false);
                    }
                    let w = choose|w: int|
                        0 <= w < m.extra@.len() && (#[trigger] m.extra@[w]).id@ == used@[j].id@
                            && m.extra@[w].name@ == used@[j].name@;
                    assert(m.extra@[w].name@ == ds.songs@[j].category@);
                }
                assert forall|k: int|
                    0 <= k < m.missing@.len() implies spec_name_declared(
                    ds.categories@,
                    (#[trigger] m.missing@[k]).name@,
                ) && !spec_name_used(ds.songs@, m.missing@[k].name@) by {
                    let w = choose|w: int|
                        0 <= w < declared@.len() && (#[trigger] declared@[w]).id@
                            == m.missing@[k].id@ && declared@[w].name@ == m.missing@[k].name@;
                    assert(ds.categories@[w].name@ == m.missing@[k].name@);
                    if spec_name_used(ds.songs@, m.missing@[k].name@) {
                        let v = choose|v: int|
                            0 <= v < ds.songs@.len() && (#[trigger] ds.songs@[v]).category@
                                == m.missing@[k].name@;
                        assert(used@[v].id@ == ""@ && used@[v].name@ == m.missing@[k].name@);
                        assert(m.missing@[k].id@ == ""@);
                    }
                }
                assert forall|i: int|
                    0 <= i < ds.categories@.len() && !spec_name_used(
                        ds.songs@,
                        (#[trigger] ds.categories@[i]).name@,
                    ) implies spec_report_names_contain(m.missing@, ds.categories@[i].name@) by {
                    assert(declared@[i].id@ == ""@ && declared@[i].name@
                        == ds.categories@[i].name@);
                    if crate::shared::consistency::spec_keys_contain(
                        used@,
                        declared@[i].id@,
                        declared@[i].name@,
                    ) {
                        let v = choose|v: int|
                            0 <= v < used@.len() && (#[trigger] used@[v]).id@ == declared@[i].id@
                                && used@[v].name@ == declared@[i].name@;
                        assert(ds.songs@[v].category@ == ds.categories@[i].name@);
                        assert(false);
                    }
                    let w = choose|w: int|
                        0 <= w < m.missing@.len() && (#[trigger] m.missing@[w]).id@
                            == declared@[i].id@ && m.missing@[w].name@ == declared@[i].name@;
                    assert(m.missing@[w].name@ == ds.categories@[i].name@);
                }
            }
            Err(m)
        },
    }
}

/// The display names of the fixed taxonomy.
pub open spec fn spec_taxonomy_name(name: Seq<char>) -> bool {
    name == "POPS & ANIME"@ || name == "niconico"@ || name == "東方Project"@
        || name == "VARIETY"@ || name == "イロドリミドリ"@ || name == "ゲキマイ"@
        || name == "ORIGINAL"@
}

/// Some raw record references a category of this display name.
pub open spec fn spec_raw_name_used(raws: Seq<SongFromAPI>, name: Seq<char>) -> bool {
    exists|i: int| 0 <= i < raws.len() && (#[trigger] raws[i]).category@ == name
}

/// The fetched records and the fixed taxonomy describe the same name set:
/// every record's category is a taxonomy name and every taxonomy name is
/// used by some record.
pub open spec fn spec_raws_consistent(raws: Seq<SongFromAPI>) -> bool {
    (forall|j: int| 0 <= j < raws.len() ==> spec_taxonomy_name((#[trigger] raws[j]).category@))
        && spec_raw_name_used(raws, "POPS & ANIME"@) && spec_raw_name_used(raws, "niconico"@)
        && spec_raw_name_used(raws, "東方Project"@) && spec_raw_name_used(raws, "VARIETY"@)
        && spec_raw_name_used(raws, "イロドリミドリ"@) && spec_raw_name_used(raws, "ゲキマイ"@)
        && spec_raw_name_used(raws, "ORIGINAL"@)
}

/// The snapshot a successful run of this source builds from `raws`.
pub open spec fn spec_fresh_store(name: Seq<char>, raws: Seq<SongFromAPI>, ds: DataStore) -> bool {
    ds.name@ == name && ds.count == raws.len() && spec_normalized_seq_eq(raws, ds.songs@)
        && spec_all_categories(ds.categories@) && spec_store_wf(ds)
}

/// The outcome of one source's run: the freshly built snapshot, and
/// whether it must be persisted.
pub struct SyncPlan {
    pub store: DataStore,
    pub write: bool,
}

/// Drive one CHUNITHM source from fetched raw records to a decision:
/// normalize, build the fresh snapshot, check taxonomy consistency, and
/// compare against the loaded local snapshot.  The snapshot is written
/// exactly when no local snapshot exists or its content differs.
pub fn plan_sync(name: &str, local: &Option<DataStore>, raws: &Vec<SongFromAPI>) -> (r: Result<
    SyncPlan,
    SyncError,
>)
    ensures
        r is Ok <==> (spec_raws_ok(raws@) && spec_raws_consistent(raws@)),
        r matches Ok(p) ==> spec_fresh_store(name@, raws@, p.store) && p.write == match local {
            Option::None => true,
            Option::Some(l) => l.spec_differs(&p.store),
        },
        r matches Err(e) ==> match e {
            SyncError::Decode(de) => !spec_raws_ok(raws@) && (de
                matches DecodeError::UnknownBoolToken(t) && (exists|i: int|
                0 <= i < raws@.len() && t@ == (#[trigger] raws@[i]).newflag@
                    && !spec_bool_token_ok(raws@[i].newflag@))),
            SyncError::Consistency(m) => spec_raws_ok(raws@) && !spec_raws_consistent(raws@)
                && (forall|k: int|
                0 <= k < m.extra@.len() ==> spec_raw_name_used(
                    raws@,
                    (#[trigger] m.extra@[k]).name@,
                ) && !spec_taxonomy_name(m.extra@[k].name@)) && (forall|j: int|
                0 <= j < raws@.len() && !spec_taxonomy_name((#[trigger] raws@[j]).category@)
                    ==> spec_report_names_contain(m.extra@, raws@[j].category@)) && (forall|k: int|
                0 <= k < m.missing@.len() ==> spec_taxonomy_name((#[trigger] m.missing@[k]).name@)
                    && !spec_raw_name_used(raws@, m.missing@[k].name@)) && (!spec_raw_name_used(
                raws@,
                "POPS & ANIME"@,
            ) ==> spec_report_names_contain(m.missing@, "POPS & ANIME"@)) && (!spec_raw_name_used(
                raws@,
                "niconico"@,
            ) ==> spec_report_names_contain(m.missing@, "niconico"@)) && (!spec_raw_name_used(
                raws@,
                "東方Project"@,
            ) ==> spec_report_names_contain(m.missing@, "東方Project"@)) && (!spec_raw_name_used(
                raws@,
                "VARIETY"@,
            ) ==> spec_report_names_contain(m.missing@, "VARIETY"@)) && (!spec_raw_name_used(
                raws@,
                "イロドリミドリ"@,
            ) ==> spec_report_names_contain(m.missing@, "イロドリミドリ"@)) && (!spec_raw_name_used(
                raws@,
                "ゲキマイ"@,
            ) ==> spec_report_names_contain(m.missing@, "ゲキマイ"@)) && (!spec_raw_name_used(
                raws@,
                "ORIGINAL"@,
            ) ==> spec_report_names_contain(m.missing@, "ORIGINAL"@)),
        },
{
    let songs = match normalize_songs(raws) {
        Ok(s) => s,
        Err(e) => {
            return Err(SyncError::Decode(e));
        },
    };
    let ds = DataStore::new(name, songs);
    proof {
        lemma_consistency_bridge(ds.categories@, ds.songs@, raws@);
    }
    match verify_categories(&ds) {
        Ok(()) => {},
        Err(m) => {
            proof {
                assert forall|k: int|
                    0 <= k < m.extra@.len() implies spec_raw_name_used(
                    raws@,
                    (#[trigger] m.extra@[k]).name@,
                ) && !spec_taxonomy_name(m.extra@[k].name@) by {
                    let w = choose|w: int|
                        0 <= w < ds.songs@.len() && (#[trigger] ds.songs@[w]).category@
                            == m.extra@[k].name@;
                    assert(raws@[w].category@ == m.extra@[k].name@);
                    if spec_taxonomy_name(m.extra@[k].name@) {
                        assert(spec_name_declared(ds.categories@, m.extra@[k].name@));
                    }
                }
                assert forall|j: int|
                    0 <= j < raws@.len() && !spec_taxonomy_name(
                        (#[trigger] raws@[j]).category@,
                    ) implies spec_report_names_contain(m.extra@, raws@[j].category@) by {
                    assert(ds.songs@[j].category@ == raws@[j].category@);
                    if spec_name_declared(ds.categories@, ds.songs@[j].category@) {
                        let v = choose|v: int|
                            0 <= v < ds.categories@.len() && (#[trigger] ds.categories@[v]).name@
                                == ds.songs@[j].category@;
                        assert(false);
                    }
                }
                assert forall|i: int|
                    0 <= i < ds.categories@.len() && !spec_raw_name_used(
                        raws@,
                        (#[trigger] ds.categories@[i]).name@,
                    ) implies spec_report_names_contain(
                    m.missing@,
                    ds.categories@[i].name@,
                ) by {
                    if spec_name_used(ds.songs@, ds.categories@[i].name@) {
                        let w = choose|w: int|
                            0 <= w < ds.songs@.len() && (#[trigger] ds.songs@[w]).category@
                                == ds.categories@[i].name@;
                        assert(ds.songs@[w] == models::spec_normalized_song(raws@[w]));
                        assert(raws@[w].category@ == ds.categories@[i].name@);
                        assert(false);
                    }
                }
                assert(ds.categories@[0].name@ == "POPS & ANIME"@);
                assert(ds.categories@[1].name@ == "niconico"@);
                assert(ds.categories@[2].name@ == "東方Project"@);
                assert(ds.categories@[3].name@ == "VARIETY"@);
                assert(ds.categories@[4].name@ == "イロドリミドリ"@);
                assert(ds.categories@[5].name@ == "ゲキマイ"@);
                assert(ds.categories@[6].name@ == "ORIGINAL"@);
                assert forall|k: int|
                    0 <= k < m.missing@.len() implies spec_taxonomy_name(
                    (#[trigger] m.missing@[k]).name@,
                ) && !spec_raw_name_used(raws@, m.missing@[k].name@) by {
                    let w = choose|w: int|
                        0 <= w < ds.categories@.len() && (#[trigger] ds.categories@[w]).name@
                            == m.missing@[k].name@;
                    if spec_raw_name_used(raws@, m.missing@[k].name@) {
                        let v = choose|v: int|
                            0 <= v < raws@.len() && (#[trigger] raws@[v]).category@
                                == m.missing@[k].name@;
                        assert(ds.songs@[v].category@ == m.missing@[k].name@);
                        assert(false);
                    }
                }
            }
            return Err(SyncError::Consistency(m));
        },
    };
    let write = match local {
        Option::None => true,
        Option::Some(l) => l.data_differs(&ds),
    };
    Ok(SyncPlan { store: ds, write })
}

/// With the fixed taxonomy and normalized songs, snapshot-level
/// consistency coincides with the raw-record statement.
proof fn lemma_consistency_bridge(cats: Seq<Category>, songs: Seq<Song>, raws: Seq<SongFromAPI>)
    requires
        spec_all_categories(cats),
        spec_normalized_seq_eq(raws, songs),
    ensures
        spec_consistent(cats, songs) <==> spec_raws_consistent(raws),
{
    assert forall|j: int| 0 <= j < songs.len() implies (#[trigger] songs[j]).category@
        == raws[j].category@ by {
        assert(songs[j] == models::spec_normalized_song(raws[j]));
    }
    if spec_consistent(cats, songs) {
        assert forall|j: int|
            0 <= j < raws.len() implies spec_taxonomy_name((#[trigger] raws[j]).category@) by {
            assert(spec_name_declared(cats, songs[j].category@));
            let w = choose|w: int|
                0 <= w < cats.len() && (#[trigger] cats[w]).name@ == songs[j].category@;
        }
        assert forall|i: int|
            0 <= i < cats.len() implies spec_raw_name_used(raws, (#[trigger] cats[i]).name@) by {
            assert(spec_name_used(songs, cats[i].name@));
            let w = choose|w: int|
                0 <= w < songs.len() && (#[trigger] songs[w]).category@ == cats[i].name@;
            assert(raws[w].category@ == cats[i].name@);
        }
        assert(spec_raw_name_used(raws, cats[0].name@));
        assert(spec_raw_name_used(raws, cats[1].name@));
        assert(spec_raw_name_used(raws, cats[2].name@));
        assert(spec_raw_name_used(raws, cats[3].name@));
        assert(spec_raw_name_used(raws, cats[4].name@));
        assert(spec_raw_name_used(raws, cats[5].name@));
        assert(spec_raw_name_used(raws, cats[6].name@));
    }
    if spec_raws_consistent(raws) {
        assert forall|i: int|
            0 <= i < cats.len() implies spec_name_used(songs, (#[trigger] cats[i]).name@) by {
            assert(spec_raw_name_used(raws, cats[i].name@));
            let w = choose|w: int|
                0 <= w < raws.len() && (#[trigger] raws[w]).category@ == cats[i].name@;
            assert(songs[w].category@ == cats[i].name@);
        }
        assert forall|j: int|
            0 <= j < songs.len() implies spec_name_declared(
            cats,
            (#[trigger] songs[j]).category@,
        ) by {
            assert(spec_taxonomy_name(raws[j].category@));
            if raws[j].category@ == "POPS & ANIME"@ {
                assert(cats[0].name@ == songs[j].category@);
            } else if raws[j].category@ == "niconico"@ {
                assert(cats[1].name@ == songs[j].category@);
            } else if raws[j].category@ == "東方Project"@ {
                assert(cats[2].name@ == songs[j].category@);
            } else if raws[j].category@ == "VARIETY"@ {
                assert(cats[3].name@ == songs[j].category@);
            } else if raws[j].category@ == "イロドリミドリ"@ {
                assert(cats[4].name@ == songs[j].category@);
            } else if raws[j].category@ == "ゲキマイ"@ {
                assert(cats[5].name@ == songs[j].category@);
            } else {
                assert(cats[6].name@ == songs[j].category@);
            }
        }
    }
}

/// Key sequences built with empty identifiers and the snapshot's names
/// agree with the snapshot-level consistency statement.
proof fn lemma_keys_bridge(
    declared: Seq<CategoryKey>,
    used: Seq<CategoryKey>,
    cats: Seq<Category>,
    songs: Seq<Song>,
)
    requires
        declared.len() == cats.len(),
        used.len() == songs.len(),
        forall|j: int|
            0 <= j < declared.len() ==> (#[trigger] declared[j]).id@ == ""@ && declared[j].name@
                == cats[j].name@,
        forall|j: int|
            0 <= j < used.len() ==> (#[trigger] used[j]).id@ == ""@ && used[j].name@
                == songs[j].category@,
    ensures
        spec_same_key_sets(declared, used) <==> spec_consistent(cats, songs),
{
    if spec_same_key_sets(declared, used) {
        assert forall|i: int|
            0 <= i < cats.len() implies spec_name_used(songs, (#[trigger] cats[i]).name@) by {
            assert(crate::shared::consistency::spec_keys_contain(
                used,
                declared[i].id@,
                declared[i].name@,
            ));
            let w = choose|w: int|
                0 <= w < used.len() && (#[trigger] used[w]).id@ == declared[i].id@
                    && used[w].name@ == declared[i].name@;
            assert(songs[w].category@ == cats[i].name@);
        }
        assert forall|j: int|
            0 <= j < songs.len() implies spec_name_declared(
            cats,
            (#[trigger] songs[j]).category@,
        ) by {
            assert(crate::shared::consistency::spec_keys_contain(
                declared,
                used[j].id@,
                used[j].name@,
            ));
            let w = choose|w: int|
                0 <= w < declared.len() && (#[trigger] declared[w]).id@ == used[j].id@
                    && declared[w].name@ == used[j].name@;
            assert(cats[w].name@ == songs[j].category@);
        }
    }
    if spec_consistent(cats, songs) {
        assert forall|i: int|
            0 <= i < declared.len() implies crate::shared::consistency::spec_keys_contain(
            used,
            (#[trigger] declared[i]).id@,
            declared[i].name@,
        ) by {
            assert(spec_name_used(songs, cats[i].name@));
            let w = choose|w: int|
                0 <= w < songs.len() && (#[trigger] songs[w]).category@ == cats[i].name@;
            assert(used[w].id@ == declared[i].id@ && used[w].name@ == declared[i].name@);
        }
        assert forall|j: int|
            0 <= j < used.len() implies crate::shared::consistency::spec_keys_contain(
            declared,
            (#[trigger] used[j]).id@,
            used[j].name@,
        ) by {
            assert(spec_name_declared(cats, songs[j].category@));
            let w = choose|w: int|
                0 <= w < cats.len() && (#[trigger] cats[w]).name@ == songs[j].category@;
            assert(declared[w].id@ == used[j].id@ && declared[w].name@ == used[j].name@);
        }
    }
}

} // verus!
