//! The ONGEKI source.  Its songs carry their category inline; the
//! consistency check is keyed by category identifier.

pub mod models;

mod deserializers;

use vstd::prelude::*;
use vstd::string::StringExecFns;

use crate::shared::consistency::{
    check_key_sets, spec_report_ids_contain, spec_same_key_sets, CategoryKey, CategoryMismatch,
};
use crate::shared::errors::SyncError;
use crate::shared::traits::{DataStore as DataStoreTrait, Otoge};

use models::{
    normalize_songs, spec_normalized_song, spec_raws_ok, spec_store_wf, Category, DataStore,
    Song, SongFromAPI,
};

pub use deserializers::{dash_string_as_none, deserialize_date};

verus! {

/// The ONGEKI service.
pub struct Ongeki;

impl Otoge for Ongeki {
    open spec fn spec_name() -> Seq<char> {
        "ongeki"@
    }

    fn name() -> (r: &'static str) {
        "ongeki"
    }
}

/// The fixed ONGEKI taxonomy, entry by entry.
pub open spec fn spec_all_categories(s: Seq<Category>) -> bool {
    s.len() == 6 && s[0].id@ == "06"@ && s[0].slug@ == "ongeki"@ && s[0].name@ == "オンゲキ"@
        && s[1].id@ == "01"@ && s[1].slug@ == "pops_and_anime"@ && s[1].name@ == "POPS & ANIME"@
        && s[2].id@ == "02"@ && s[2].slug@ == "niconico"@ && s[2].name@ == "niconico"@
        && s[3].id@ == "03"@ && s[3].slug@ == "touhou"@ && s[3].name@ == "東方Project"@
        && s[4].id@ == "04"@ && s[4].slug@ == "variety"@ && s[4].name@ == "VARIETY"@ && s[5].id@
        == "05"@ && s[5].slug@ == "chumai"@ && s[5].name@ == "チュウマイ"@
}

/// The fixed category taxonomy of the ONGEKI source.
pub fn get_all_categories() -> (r: Vec<Category>)
    ensures
        spec_all_categories(r@),
{
    let mut v: Vec<Category> = Vec::new();
    v.push(
        Category {
            id: String::from_str("06"),
            slug: String::from_str("ongeki"),
            name: String::from_str("オンゲキ"),
        },
    );
    v.push(
        Category {
            id: String::from_str("01"),
            slug: String::from_str("pops_and_anime"),
            name: String::from_str("POPS & ANIME"),
        },
    );
    v.push(
        Category {
            id: String::from_str("02"),
            slug: String::from_str("niconico"),
            name: String::from_str("niconico"),
        },
    );
    v.push(
        Category {
            id: String::from_str("03"),
            slug: String::from_str("touhou"),
            name: String::from_str("東方Project"),
        },
    );
    v.push(
        Category {
            id: String::from_str("04"),
            slug: String::from_str("variety"),
            name: String::from_str("VARIETY"),
        },
    );
    v.push(
        Category {
            id: String::from_str("05"),
            slug: String::from_str("chumai"),
            name: String::from_str("チュウマイ"),
        },
    );
    v
}

/// Some declared category carries this identifier.
pub open spec fn spec_id_declared(cats: Seq<Category>, id: Seq<char>) -> bool {
    exists|i: int| 0 <= i < cats.len() && (#[trigger] cats[i]).id@ == id
}

/// Some song references a category of this identifier.
pub open spec fn spec_id_used(songs: Seq<Song>, id: Seq<char>) -> bool {
    exists|i: int| 0 <= i < songs.len() && (#[trigger] songs[i]).category.id@ == id
}

/// The declared taxonomy and the category identifiers the songs use
/// describe the same set.
pub open spec fn spec_consistent(cats: Seq<Category>, songs: Seq<Song>) -> bool {
    (forall|i: int| 0 <= i < cats.len() ==> spec_id_used(songs, (#[trigger] cats[i]).id@))
        && (forall|j: int|
        0 <= j < songs.len() ==> spec_id_declared(cats, (#[trigger] songs[j]).category.id@))
}

/// Set-mode consistency check keyed by category identifier; on
/// disagreement both difference sets are reported.
pub fn verify_categories(ds: &DataStore) -> (r: Result<(), CategoryMismatch>)
    ensures
        r is Ok <==> spec_consistent(ds.categories@, ds.songs@),
        r matches Err(m) ==> {
            &&& forall|k: int|
                0 <= k < m.extra@.len() ==> spec_id_used(
                    ds.songs@,
                    (#[trigger] m.extra@[k]).id@,
                ) && !spec_id_declared(ds.categories@, m.extra@[k].id@)
            &&& forall|j: int|
                0 <= j < ds.songs@.len() && !spec_id_declared(
                    ds.categories@,
                    (#[trigger] ds.songs@[j]).category.id@,
                ) ==> spec_report_ids_contain(m.extra@, ds.songs@[j].category.id@)
            &&& forall|k: int|
                0 <= k < m.missing@.len() ==> spec_id_declared(
                    ds.categories@,
                    (#[trigger] m.missing@[k]).id@,
                ) && !spec_id_used(ds.songs@, m.missing@[k].id@)
            &&& forall|i: int|
                0 <= i < ds.categories@.len() && !spec_id_used(
                    ds.songs@,
                    (#[trigger] ds.categories@[i]).id@,
                ) ==> spec_report_ids_contain(m.missing@, ds.categories@[i].id@)
        },
{
    let mut declared: Vec<CategoryKey> = Vec::new();
    for i in 0..ds.categories.len()
        invariant
            declared@.len() == i,
            forall|j: int|
                0 <= j < i ==> (#[trigger] declared@[j]).id@ == ds.categories@[j].id@
                    && declared@[j].name@ == ""@,
    {
        declared.push(
            CategoryKey { id: ds.categories[i].id.clone(), name: String::from_str("") },
        );
    }
    let mut used: Vec<CategoryKey> = Vec::new();
    for i in 0..ds.songs.len()
        invariant
            used@.len() == i,
            forall|j: int|
                0 <= j < i ==> (#[trigger] used@[j]).id@ == ds.songs@[j].category.id@
                    && used@[j].name@ == ""@,
    {
        used.push(
            CategoryKey { id: ds.songs[i].category.id.clone(), name: String::from_str("") },
        );
    }
    let r = check_key_sets(&declared, &used);
    proof {
        lemma_keys_bridge(declared@, used@, ds.categories@, ds.songs@);
    }
    match r {
        Ok(()) => Ok(()),
        Err(m) => {
            proof {
                assert forall|k: int|
                    0 <= k < m.extra@.len() implies spec_id_used(
                    ds.songs@,
                    (#[trigger] m.extra@[k]).id@,
                ) && !spec_id_declared(ds.categories@, m.extra@[k].id@) by {
                    let w = choose|w: int|
                        0 <= w < used@.len() && (#[trigger] used@[w]).id@ == m.extra@[k].id@
                            && used@[w].name@ == m.extra@[k].name@;
                    assert(ds.songs@[w].category.id@ == m.extra@[k].id@);
                    if spec_id_declared(ds.categories@, m.extra@[k].id@) {
                        let v = choose|v: int|
                            0 <= v < ds.categories@.len() && (#[trigger] ds.categories@[v]).id@
                                == m.extra@[k].id@;
                        assert(declared@[v].id@ == m.extra@[k].id@ && declared@[v].name@ == ""@);
                        assert(m.extra@[k].name@ == ""@);
                        assert(false);
                    }
                }
                assert forall|j: int|
                    0 <= j < ds.songs@.len() && !spec_id_declared(
                        ds.categories@,
                        (#[trigger] ds.songs@[j]).category.id@,
                    ) implies spec_report_ids_contain(m.extra@, ds.songs@[j].category.id@) by {
                    assert(used@[j].id@ == ds.songs@[j].category.id@ && used@[j].name@ == ""@);
                    if crate::shared::consistency::spec_keys_contain(
                        declared@,
                        used@[j].id@,
                        used@[j].name@,
                    ) {
                        let v = choose|v: int|
                            0 <= v < declared@.len() && (#[trigger] declared@[v]).id@ == used@[
                                j
                            ].id@ && declared@[v].name@ == used@[j].name@;
                        assert(ds.categories@[v].id@ == ds.songs@[j].category.id@);
                        assert(false);
                    }
                    let w = choose|w: int|
                        0 <= w < m.extra@.len() && (#[trigger] m.extra@[w]).id@ == used@[j].id@
                            && m.extra@[w].name@ == used@[j].name@;
                    assert(m.extra@[w].id@ == ds.songs@[j].category.id@);
                }
                assert forall|k: int|
                    0 <= k < m.missing@.len() implies spec_id_declared(
                    ds.categories@,
                    (#[trigger] m.missing@[k]).id@,
                ) && !spec_id_used(ds.songs@, m.missing@[k].id@) by {
                    let w = choose|w: int|
                        0 <= w < declared@.len() && (#[trigger] declared@[w]).id@ == m.missing@[
                            k
                        ].id@ && declared@[w].name@ == m.missing@[k].name@;
                    assert(ds.categories@[w].id@ == m.missing@[k].id@);
                    if spec_id_used(ds.songs@, m.missing@[k].id@) {
                        let v = choose|v: int|
                            0 <= v < ds.songs@.len() && (#[trigger] ds.songs@[v]).category.id@
                                == m.missing@[k].id@;
                        assert(used@[v].id@ == m.missing@[k].id@ && used@[v].name@ == ""@);
                        assert(m.missing@[k].name@ == ""@);
                        assert(false);
                    }
                }
                assert forall|i: int|
                    0 <= i < ds.categories@.len() && !spec_id_used(
                        ds.songs@,
                        (#[trigger] ds.categories@[i]).id@,
                    ) implies spec_report_ids_contain(m.missing@, ds.categories@[i].id@) by {
                    assert(declared@[i].id@ == ds.categories@[i].id@ && declared@[i].name@
                        == ""@);
                    if crate::shared::consistency::spec_keys_contain(
                        used@,
                        declared@[i].id@,
                        declared@[i].name@,
                    ) {
                        let v = choose|v: int|
                            0 <= v < used@.len() && (#[trigger] used@[v]).id@ == declared@[i].id@
                                && used@[v].name@ == declared@[i].name@;
                        assert(ds.songs@[v].category.id@ == ds.categories@[i].id@);
                        assert(false);
                    }
                    let w = choose|w: int|
                        0 <= w < m.missing@.len() && (#[trigger] m.missing@[w]).id@ == declared@[
                            i
                        ].id@ && m.missing@[w].name@ == declared@[i].name@;
                    assert(m.missing@[w].id@ == ds.categories@[i].id@);
                }
            }
            Err(m)
        },
    }
}

/// Key sequences built with empty names and the snapshot's identifiers
/// agree with the snapshot-level consistency statement.
proof fn lemma_keys_bridge(
    declared: Seq<CategoryKey>,
    used: Seq<CategoryKey>,
    cats: Seq<Category>,
    songs: Seq<Song>,
)
    requires
        declared.len() == cats.len(),
        used.len() == songs.len(),
        forall|j: int|
            0 <= j < declared.len() ==> (#[trigger] declared[j]).id@ == cats[j].id@
                && declared[j].name@ == ""@,
        forall|j: int|
            0 <= j < used.len() ==> (#[trigger] used[j]).id@ == songs[j].category.id@
                && used[j].name@ == ""@,
    ensures
        spec_same_key_sets(declared, used) <==> spec_consistent(cats, songs),
{
    if spec_same_key_sets(declared, used) {
        assert forall|i: int|
            0 <= i < cats.len() implies spec_id_used(songs, (#[trigger] cats[i]).id@) by {
            assert(crate::shared::consistency::spec_keys_contain(
                used,
                declared[i].id@,
                declared[i].name@,
            ));
            let w = choose|w: int|
                0 <= w < used.len() && (#[trigger] used[w]).id@ == declared[i].id@
                    && used[w].name@ == declared[i].name@;
            assert(songs[w].category.id@ == cats[i].id@);
        }
        assert forall|j: int|
            0 <= j < songs.len() implies spec_id_declared(
            cats,
            (#[trigger] songs[j]).category.id@,
        ) by {
            assert(crate::shared::consistency::spec_keys_contain(
                declared,
                used[j].id@,
                used[j].name@,
            ));
            let w = choose|w: int|
                0 <= w < declared.len() && (#[trigger] declared[w]).id@ == used[j].id@
                    && declared[w].name@ == used[j].name@;
            assert(cats[w].id@ == songs[j].category.id@);
        }
    }
    if spec_consistent(cats, songs) {
        assert forall|i: int|
            0 <= i < declared.len() implies crate::shared::consistency::spec_keys_contain(
            used,
            (#[trigger] declared[i]).id@,
            declared[i].name@,
        ) by {
            assert(spec_id_used(songs, cats[i].id@));
            let w = choose|w: int|
                0 <= w < songs.len() && (#[trigger] songs[w]).category.id@ == cats[i].id@;
            assert(used[w].id@ == declared[i].id@ && used[w].name@ == declared[i].name@);
        }
        assert forall|j: int|
            0 <= j < used.len() implies crate::shared::consistency::spec_keys_contain(
            declared,
            (#[trigger] used[j]).id@,
            used[j].name@,
        ) by {
            assert(spec_id_declared(cats, songs[j].category.id@));
            let w = choose|w: int|
                0 <= w < cats.len() && (#[trigger] cats[w]).id@ == songs[j].category.id@;
            assert(declared[w].id@ == used[j].id@ && declared[w].name@ == used[j].name@);
        }
    }
}

/// The identifiers of the fixed taxonomy.
pub open spec fn spec_taxonomy_id(id: Seq<char>) -> bool {
    id == "06"@ || id == "01"@ || id == "02"@ || id == "03"@ || id == "04"@ || id == "05"@
}

/// Some raw record references a category of this identifier.
pub open spec fn spec_raw_id_used(raws: Seq<SongFromAPI>, id: Seq<char>) -> bool {
    exists|i: int| 0 <= i < raws.len() && (#[trigger] raws[i]).category_id@ == id
}

/// The fetched records and the fixed taxonomy describe the same
/// identifier set.
pub open spec fn spec_raws_consistent(raws: Seq<SongFromAPI>) -> bool {
    (forall|j: int| 0 <= j < raws.len() ==> spec_taxonomy_id((#[trigger] raws[j]).category_id@))
        && spec_raw_id_used(raws, "06"@) && spec_raw_id_used(raws, "01"@) && spec_raw_id_used(
        raws,
        "02"@,
    ) && spec_raw_id_used(raws, "03"@) && spec_raw_id_used(raws, "04"@) && spec_raw_id_used(
        raws,
        "05"@,
    )
}

/// The outcome of the ONGEKI run: the freshly built snapshot, and
/// whether it must be persisted.
pub struct SyncPlan {
    pub store: DataStore,
    pub write: bool,
}

/// Drive the ONGEKI source from fetched raw records to a decision:
/// normalize, build the fresh snapshot, check taxonomy consistency, and
/// compare against the loaded local snapshot.
pub fn plan_sync(name: &str, local: &Option<DataStore>, raws: &Vec<SongFromAPI>) -> (r: Result<
    SyncPlan,
    SyncError,
>)
    ensures
        r is Ok <==> (spec_raws_ok(raws@) && spec_raws_consistent(raws@)),
        r matches Ok(p) ==> {
            &&& p.store.name@ == name@
            &&& p.store.count == raws@.len()
            &&& p.store.songs@.len() == raws@.len()
            &&& forall|i: int|
                0 <= i < raws@.len() ==> #[trigger] p.store.songs@[i] == spec_normalized_song(
                    raws@[i],
                )
            &&& spec_all_categories(p.store.categories@)
            &&& spec_store_wf(p.store)
            &&& p.write == match local {
                Option::None => true,
                Option::Some(l) => l.spec_differs(&p.store),
            }
        },
        r matches Err(e) ==> match e {
            SyncError::Decode(de) => !spec_raws_ok(raws@),
            SyncError::Consistency(m) => spec_raws_ok(raws@) && !spec_raws_consistent(raws@)
                && (forall|k: int|
                0 <= k < m.extra@.len() ==> spec_raw_id_used(raws@, (#[trigger] m.extra@[k]).id@)
                    && !spec_taxonomy_id(m.extra@[k].id@)) && (forall|j: int|
                0 <= j < raws@.len() && !spec_taxonomy_id((#[trigger] raws@[j]).category_id@)
                    ==> spec_report_ids_contain(m.extra@, raws@[j].category_id@)) && (forall|k: int|
                0 <= k < m.missing@.len() ==> spec_taxonomy_id((#[trigger] m.missing@[k]).id@)
                    && !spec_raw_id_used(raws@, m.missing@[k].id@)) && (!spec_raw_id_used(
                raws@,
                "06"@,
            ) ==> spec_report_ids_contain(m.missing@, "06"@)) && (!spec_raw_id_used(raws@, "01"@)
                ==> spec_report_ids_contain(m.missing@, "01"@)) && (!spec_raw_id_used(raws@, "02"@)
                ==> spec_report_ids_contain(m.missing@, "02"@)) && (!spec_raw_id_used(raws@, "03"@)
                ==> spec_report_ids_contain(m.missing@, "03"@)) && (!spec_raw_id_used(raws@, "04"@)
                ==> spec_report_ids_contain(m.missing@, "04"@)) && (!spec_raw_id_used(raws@, "05"@)
                ==> spec_report_ids_contain(m.missing@, "05"@)),
        },
{
    let songs = match normalize_songs(raws) {
        Ok(s) => s,
        Err(e) => {
            return Err(SyncError::Decode(e));
        },
    };
    let ds = DataStore::new(name, songs);
    proof {
        lemma_consistency_bridge(ds.categories@, ds.songs@, raws@);
    }
    match verify_categories(&ds) {
        Ok(()) => {},
        Err(m) => {
            proof {
                assert forall|j: int|
                    0 <= j < ds.songs@.len() implies (#[trigger] ds.songs@[j]).category.id@
                    == raws@[j].category_id@ by {
                    assert(ds.songs@[j] == models::spec_normalized_song(raws@[j]));
                }
                assert forall|k: int|
                    0 <= k < m.extra@.len() implies spec_raw_id_used(
                    raws@,
                    (#[trigger] m.extra@[k]).id@,
                ) && !spec_taxonomy_id(m.extra@[k].id@) by {
                    let w = choose|w: int|
                        0 <= w < ds.songs@.len() && (#[trigger] ds.songs@[w]).category.id@
                            == m.extra@[k].id@;
                    assert(raws@[w].category_id@ == m.extra@[k].id@);
                    if spec_taxonomy_id(m.extra@[k].id@) {
                        if m.extra@[k].id@ == "06"@ {
                            assert(ds.categories@[0].id@ == m.extra@[k].id@);
                        } else if m.extra@[k].id@ == "01"@ {
                            assert(ds.categories@[1].id@ == m.extra@[k].id@);
                        } else if m.extra@[k].id@ == "02"@ {
                            assert(ds.categories@[2].id@ == m.extra@[k].id@);
                        } else if m.extra@[k].id@ == "03"@ {
                            assert(ds.categories@[3].id@ == m.extra@[k].id@);
                        } else if m.extra@[k].id@ == "04"@ {
                            assert(ds.categories@[4].id@ == m.extra@[k].id@);
                        } else {
                            assert(ds.categories@[5].id@ == m.extra@[k].id@);
                        }
                        assert(spec_id_declared(ds.categories@, m.extra@[k].id@));
                        assert(false);
                    }
                }
                assert forall|j: int|
                    0 <= j < raws@.len() && !spec_taxonomy_id(
                        (#[trigger] raws@[j]).category_id@,
                    ) implies spec_report_ids_contain(m.extra@, raws@[j].category_id@) by {
                    assert(ds.songs@[j].category.id@ == raws@[j].category_id@);
                    if spec_id_declared(ds.categories@, ds.songs@[j].category.id@) {
                        let v = choose|v: int|
                            0 <= v < ds.categories@.len() && (#[trigger] ds.categories@[v]).id@
                                == ds.songs@[j].category.id@;
                        assert(false);
                    }
                }
                assert forall|k: int|
                    0 <= k < m.missing@.len() implies spec_taxonomy_id(
                    (#[trigger] m.missing@[k]).id@,
                ) && !spec_raw_id_used(raws@, m.missing@[k].id@) by {
                    let w = choose|w: int|
                        0 <= w < ds.categories@.len() && (#[trigger] ds.categories@[w]).id@
                            == m.missing@[k].id@;
                    if spec_raw_id_used(raws@, m.missing@[k].id@) {
                        let v = choose|v: int|
                            0 <= v < raws@.len() && (#[trigger] raws@[v]).category_id@
                                == m.missing@[k].id@;
                        assert(ds.songs@[v].category.id@ == m.missing@[k].id@);
                        assert(false);
                    }
                }
                assert forall|i: int|
                    0 <= i < ds.categories@.len() && !spec_raw_id_used(
                        raws@,
                        (#[trigger] ds.categories@[i]).id@,
                    ) implies spec_report_ids_contain(m.missing@, ds.categories@[i].id@) by {
                    if spec_id_used(ds.songs@, ds.categories@[i].id@) {
                        let w = choose|w: int|
                            0 <= w < ds.songs@.len() && (#[trigger] ds.songs@[w]).category.id@
                                == ds.categories@[i].id@;
                        assert(raws@[w].category_id@ == ds.categories@[i].id@);
                        assert(false);
                    }
                }
                assert(ds.categories@[0].id@ == "06"@);
                assert(ds.categories@[1].id@ == "01"@);
                assert(ds.categories@[2].id@ == "02"@);
                assert(ds.categories@[3].id@ == "03"@);
                assert(ds.categories@[4].id@ == "04"@);
                assert(ds.categories@[5].id@ == "05"@);
            }
            return Err(SyncError::Consistency(m));
        },
    };
    let write = match local {
        Option::None => true,
        Option::Some(l) => l.data_differs(&ds),
    };
    Ok(SyncPlan { store: ds, write })
}

/// With the fixed taxonomy and normalized songs, snapshot-level
/// consistency coincides with the raw-record statement.
proof fn lemma_consistency_bridge(cats: Seq<Category>, songs: Seq<Song>, raws: Seq<SongFromAPI>)
    requires
        spec_all_categories(cats),
        songs.len() == raws.len(),
        forall|i: int| 0 <= i < raws.len() ==> #[trigger] songs[i] == spec_normalized_song(raws[i]),
    ensures
        spec_consistent(cats, songs) <==> spec_raws_consistent(raws),
{
    assert forall|j: int| 0 <= j < songs.len() implies (#[trigger] songs[j]).category.id@
        == raws[j].category_id@ by {
        assert(songs[j] == spec_normalized_song(raws[j]));
    }
    if spec_consistent(cats, songs) {
        assert forall|j: int|
            0 <= j < raws.len() implies spec_taxonomy_id((#[trigger] raws[j]).category_id@) by {
            assert(spec_id_declared(cats, songs[j].category.id@));
            let w = choose|w: int|
                0 <= w < cats.len() && (#[trigger] cats[w]).id@ == songs[j].category.id@;
        }
        assert forall|i: int|
            0 <= i < cats.len() implies spec_raw_id_used(raws, (#[trigger] cats[i]).id@) by {
            assert(spec_id_used(songs, cats[i].id@));
            let w = choose|w: int|
                0 <= w < songs.len() && (#[trigger] songs[w]).category.id@ == cats[i].id@;
            assert(raws[w].category_id@ == cats[i].id@);
        }
        assert(spec_raw_id_used(raws, cats[0].id@));
        assert(spec_raw_id_used(raws, cats[1].id@));
        assert(spec_raw_id_used(raws, cats[2].id@));
        assert(spec_raw_id_used(raws, cats[3].id@));
        assert(spec_raw_id_used(raws, cats[4].id@));
        assert(spec_raw_id_used(raws, cats[5].id@));
    }
    if spec_raws_consistent(raws) {
        assert forall|i: int|
            0 <= i < cats.len() implies spec_id_used(songs, (#[trigger] cats[i]).id@) by {
            assert(spec_raw_id_used(raws, cats[i].id@));
            let w = choose|w: int|
                0 <= w < raws.len() && (#[trigger] raws[w]).category_id@ == cats[i].id@;
            assert(songs[w].category.id@ == cats[i].id@);
        }
        assert forall|j: int|
            0 <= j < songs.len() implies spec_id_declared(
            cats,
            (#[trigger] songs[j]).category.id@,
        ) by {
            assert(spec_taxonomy_id(raws[j].category_id@));
            if raws[j].category_id@ == "06"@ {
                assert(cats[0].id@ == songs[j].category.id@);
            } else if raws[j].category_id@ == "01"@ {
                assert(cats[1].id@ == songs[j].category.id@);
            } else if raws[j].category_id@ == "02"@ {
                assert(cats[2].id@ == songs[j].category.id@);
            } else if raws[j].category_id@ == "03"@ {
                assert(cats[3].id@ == songs[j].category.id@);
            } else if raws[j].category_id@ == "04"@ {
                assert(cats[4].id@ == songs[j].category.id@);
            } else {
                assert(cats[5].id@ == songs[j].category.id@);
            }
        }
    }
}

} // verus!