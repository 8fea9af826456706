//! The two maimai sources (Japan and international).  They share the wire
//! schema and canonical records; their taxonomies differ in display names.

mod deserializers;
pub mod models;

use vstd::prelude::*;
use vstd::string::StringExecFns;

use crate::shared::consistency::{
    check_key_sets, spec_report_names_contain, spec_same_key_sets, CategoryKey, CategoryMismatch,
};
use crate::shared::errors::SyncError;
use crate::shared::traits::{DataStore as DataStoreTrait, Otoge};

use models::{
    normalize_songs, spec_normalized_song, spec_raw_song_ok, spec_raws_ok, spec_store_wf,
    Category, DataStore, Song, SongFromAPI,
};

verus! {

/// The Japanese maimai service.
pub struct MaimaiJP;

impl Otoge for MaimaiJP {
    open spec fn spec_name() -> Seq<char> {
        "maimai_jp"@
    }

    fn name() -> (r: &'static str) {
        "maimai_jp"
    }
}

/// The international maimai service.
pub struct MaimaiIntl;

impl Otoge for MaimaiIntl {
    open spec fn spec_name() -> Seq<char> {
        "maimai_intl"@
    }

    fn name() -> (r: &'static str) {
        "maimai_intl"
    }
}

/// The fixed Japanese taxonomy, entry by entry.
pub open spec fn spec_jp_categories(s: Seq<Category>) -> bool {
    s.len() == 6 && s[0].slug@ == "pops_anime"@ && s[0].name@ == "POPS＆アニメ"@ && s[1].slug@
        == "niconico"@ && s[1].name@ == "niconico＆ボーカロイド"@ && s[2].slug@ == "toho"@
        && s[2].name@ == "東方Project"@ && s[3].slug@ == "variety"@ && s[3].name@
        == "ゲーム＆バラエティ"@ && s[4].slug@ == "maimai"@ && s[4].name@ == "maimai"@
        && s[5].slug@ == "gekichu"@ && s[5].name@ == "オンゲキ＆CHUNITHM"@
}

/// The fixed international taxonomy, entry by entry.
pub open spec fn spec_intl_categories(s: Seq<Category>) -> bool {
    s.len() == 6 && s[0].slug@ == "pops_anime"@ && s[0].name@ == "POPS＆ANIME"@ && s[1].slug@
        == "niconico"@ && s[1].name@ == "niconico＆VOCALOID™"@ && s[2].slug@ == "toho"@
        && s[2].name@ == "東方Project"@ && s[3].slug@ == "variety"@ && s[3].name@
        == "GAME＆VARIETY"@ && s[4].slug@ == "maimai"@ && s[4].name@ == "maimai"@ && s[5].slug@
        == "gekichu"@ && s[5].name@ == "オンゲキ＆CHUNITHM"@
}

/// The category taxonomy of the Japanese service.
pub fn get_all_jp_categories() -> (r: Vec<Category>)
    ensures
        spec_jp_categories(r@),
{
    let mut v: Vec<Category> = Vec::new();
    v.push(
        Category { slug: String::from_str("pops_anime"), name: String::from_str("POPS＆アニメ") },
    );
    v.push(
        Category {
            slug: String::from_str("niconico"),
            name: String::from_str("niconico＆ボーカロイド"),
        },
    );
    v.push(Category { slug: String::from_str("toho"), name: String::from_str("東方Project") });
    v.push(
        Category {
            slug: String::from_str("variety"),
            name: String::from_str("ゲーム＆バラエティ"),
        },
    );
    v.push(Category { slug: String::from_str("maimai"), name: String::from_str("maimai") });
    v.push(
        Category {
            slug: String::from_str("gekichu"),
            name: String::from_str("オンゲキ＆CHUNITHM"),
        },
    );
    v
}

/// The category taxonomy of the international service.
pub fn get_all_intl_categories() -> (r: Vec<Category>)
    ensures
        spec_intl_categories(r@),
{
    let mut v: Vec<Category> = Vec::new();
    v.push(
        Category { slug: String::from_str("pops_anime"), name: String::from_str("POPS＆ANIME") },
    );
    v.push(
        Category {
            slug: String::from_str("niconico"),
            name: String::from_str("niconico＆VOCALOID™"),
        },
    );
    v.push(Category { slug: String::from_str("toho"), name: String::from_str("東方Project") });
    v.push(
        Category { slug: String::from_str("variety"), name: String::from_str("GAME＆VARIETY") },
    );
    v.push(Category { slug: String::from_str("maimai"), name: String::from_str("maimai") });
    v.push(
        Category {
            slug: String::from_str("gekichu"),
            name: String::from_str("オンゲキ＆CHUNITHM"),
        },
    );
    v
}

/// Some declared category carries this display name.
pub open spec fn spec_name_declared(cats: Seq<Category>, name: Seq<char>) -> bool {
    exists|i: int| 0 <= i < cats.len() && (#[trigger] cats[i]).name@ == name
}

/// Some song references a category of this display name.
pub open spec fn spec_name_used(songs: Seq<Song>, name: Seq<char>) -> bool {
    exists|i: int| 0 <= i < songs.len() && (#[trigger] songs[i]).category@ == name
}

/// The declared taxonomy and the categories the songs use describe the
/// same name set.
pub open spec fn spec_consistent(cats: Seq<Category>, songs: Seq<Song>) -> bool {
    (forall|i: int| 0 <= i < cats.len() ==> spec_name_used(songs, (#[trigger] cats[i]).name@))
        && (forall|j: int|
        0 <= j < songs.len() ==> spec_name_declared(cats, (#[trigger] songs[j]).category@))
}

/// Set-mode consistency check: the category names the snapshot declares
/// and the names its songs use must be the same set; otherwise both
/// difference sets are reported.
pub fn verify_categories(ds: &DataStore) -> (r: Result<(), CategoryMismatch>)
    ensures
        r is Ok <==> spec_consistent(ds.categories@, ds.songs@),
        r matches Err(m) ==> {
            &&& forall|k: int|
                0 <= k < m.extra@.len() ==> spec_name_used(
                    ds.songs@,
                    (#[trigger] m.extra@[k]).name@,
                ) && !spec_name_declared(ds.categories@, m.extra@[k].name@)
            &&& forall|j: int|
                0 <= j < ds.songs@.len() && !spec_name_declared(
                    ds.categories@,
                    (#[trigger] ds.songs@[j]).category@,
                ) ==> spec_report_names_contain(m.extra@, ds.songs@[j].category@)
            &&& forall|k: int|
                0 <= k < m.missing@.len() ==> spec_name_declared(
                    ds.categories@,
                    (#[trigger] m.missing@[k]).name@,
                ) && !spec_name_used(ds.songs@, m.missing@[k].name@)
            &&& forall|i: int|
                0 <= i < ds.categories@.len() && !spec_name_used(
                    ds.songs@,
                    (#[trigger] ds.categories@[i]).name@,
                ) ==> spec_report_names_contain(m.missing@, ds.categories@[i].name@)
        },
{
    let mut declared: Vec<CategoryKey> = Vec::new();
    for i in 0..ds.categories.len()
        invariant
            declared@.len() == i,
            forall|j: int|
                0 <= j < i ==> (#[trigger] declared@[j]).id@ == ""@ && declared@[j].name@
                    == ds.categories@[j].name@,
    {
        declared.push(
            CategoryKey { id: String::from_str(""), name: ds.categories[i].name.clone() },
        );
    }
    let mut used: Vec<CategoryKey> = Vec::new();
    for i in 0..ds.songs.len()
        invariant
            used@.len() == i,
            forall|j: int|
                0 <= j < i ==> (#[trigger] used@[j]).id@ == ""@ && used@[j].name@
                    == ds.songs@[j].category@,
    {
        used.push(CategoryKey { id: String::from_str(""), name: ds.songs[i].category.clone() });
    }
    let r = check_key_sets(&declared, &used);
    proof {
        lemma_keys_bridge(declared@, used@, ds.categories@, ds.songs@);
    }
    match r {
        Ok(()) => Ok(()),
        Err(m) => {
            proof {
                assert forall|k: int|
                    0 <= k < m.extra@.len() implies spec_name_used(
                    ds.songs@,
                    (#[trigger] m.extra@[k]).name@,
                ) && !spec_name_declared(ds.categories@, m.extra@[k].name@) by {
                    let w = choose|w: int|
                        0 <= w < used@.len() && (#[trigger] used@[w]).id@ == m.extra@[k].id@
                            && used@[w].name@ == m.extra@[k].name@;
                    assert(ds.songs@[w].category@ == m.extra@[k].name@);
                    if spec_name_declared(ds.categories@, m.extra@[k].name@) {
                        let v = choose|v: int|
                            0 <= v < ds.categories@.len() && (#[trigger] ds.categories@[v]).name@
                                == m.extra@[k].name@;
                        assert(declared@[v].id@ == ""@ && declared@[v].name@
                            == m.extra@[k].name@);
                        assert(m.extra@[k].id@ == ""@);
                    }
                }
                assert forall|j: int|
                    0 <= j < ds.songs@.len() && !spec_name_declared(
                        ds.categories@,
                        (#[trigger] ds.songs@[j]).category@,
                    ) implies spec_report_names_contain(m.extra@, ds.songs@[j].category@) by {
                    assert(used@[j].id@ == ""@ && used@[j].name@ == ds.songs@[j].category@);
                    if crate::shared::consistency::spec_keys_contain(
                        declared@,
                        used@[j].id@,
                        used@[j].name@,
                    ) {
                        let v = choose|v: int|
                            0 <= v < declared@.len() && (#[trigger] declared@[v]).id@
                                == used@[j].id@ && declared@[v].name@ == used@[j].name@;
                        assert(ds.categories@[v].name@ == ds.songs@[j].category@);
                        assert(false);
                    }
                    let w = choose|w: int|
                        0 <= w < m.extra@.len() && (#[trigger] m.extra@[w]).id@ == used@[j].id@
                            && m.extra@[w].name@ == used@[j].name@;
                    assert(m.extra@[w].name@ == ds.songs@[j].category@);
                }
                assert forall|k: int|
                    0 <= k < m.missing@.len() implies spec_name_declared(
                    ds.categories@,
                    (#[trigger] m.missing@[k]).name@,
                ) && !spec_name_used(ds.songs@, m.missing@[k].name@) by {
                    let w = choose|w: int|
                        0 <= w < declared@.len() && (#[trigger] declared@[w]).id@ == m.missing@[
                            k
                        ].id@ && declared@[w].name@ == m.missing@[k].name@;
                    assert(ds.categories@[w].name@ == m.missing@[k].name@);
                    if spec_name_used(ds.songs@, m.missing@[k].name@) {
                        let v = choose|v: int|
                            0 <= v < ds.songs@.len() && (#[trigger] ds.songs@[v]).category@
                                == m.missing@[k].name@;
                        assert(used@[v].id@ == ""@ && used@[v].name@ == m.missing@[k].name@);
                        assert(m.missing@[k].id@ == ""@);
                    }
                }
                assert forall|i: int|
                    0 <= i < ds.categories@.len() && !spec_name_used(
                        ds.songs@,
                        (#[trigger] ds.categories@[i]).name@,
                    ) implies spec_report_names_contain(m.missing@, ds.categories@[i].name@) by {
                    assert(declared@[i].id@ == ""@ && declared@[i].name@
                        == ds.categories@[i].name@);
                    if crate::shared::consistency::spec_keys_contain(
                        used@,
                        declared@[i].id@,
                        declared@[i].name@,
                    ) {
                        let v = choose|v: int|
                            0 <= v < used@.len() && (#[trigger] used@[v]).id@ == declared@[i].id@
                                && used@[v].name@ == declared@[i].name@;
                        assert(ds.songs@[v].category@ == ds.categories@[i].name@);
                        assert(false);
                    }
                    let w = choose|w: int|
                        0 <= w < m.missing@.len() && (#[trigger] m.missing@[w]).id@ == declared@[
                            i
                        ].id@ && m.missing@[w].name@ == declared@[i].name@;
                    assert(m.missing@[w].name@ == ds.categories@[i].name@);
                }
            }
            Err(m)
        },
    }
}

/// Key sequences built with empty identifiers and the snapshot's names
/// agree with the snapshot-level consistency statement.
proof fn lemma_keys_bridge(
    declared: Seq<CategoryKey>,
    used: Seq<CategoryKey>,
    cats: Seq<Category>,
    songs: Seq<Song>,
)
    requires
        declared.len() == cats.len(),
        used.len() == songs.len(),
        forall|j: int|
            0 <= j < declared.len() ==> (#[trigger] declared[j]).id@ == ""@ && declared[j].name@
                == cats[j].name@,
        forall|j: int|
            0 <= j < used.len() ==> (#[trigger] used[j]).id@ == ""@ && used[j].name@
                == songs[j].category@,
    ensures
        spec_same_key_sets(declared, used) <==> spec_consistent(cats, songs),
{
    if spec_same_key_sets(declared, used) {
        assert forall|i: int|
            0 <= i < cats.len() implies spec_name_used(songs, (#[trigger] cats[i]).name@) by {
            assert(crate::shared::consistency::spec_keys_contain(
                used,
                declared[i].id@,
                declared[i].name@,
            ));
            let w = choose|w: int|
                0 <= w < used.len() && (#[trigger] used[w]).id@ == declared[i].id@
                    && used[w].name@ == declared[i].name@;
            assert(songs[w].category@ == cats[i].name@);
        }
        assert forall|j: int|
            0 <= j < songs.len() implies spec_name_declared(
            cats,
            (#[trigger] songs[j]).category@,
        ) by {
            assert(crate::shared::consistency::spec_keys_contain(
                declared,
                used[j].id@,
                used[j].name@,
            ));
            let w = choose|w: int|
                0 <= w < declared.len() && (#[trigger] declared[w]).id@ == used[j].id@
                    && declared[w].name@ == used[j].name@;
            assert(cats[w].name@ == songs[j].category@);
        }
    }
    if spec_consistent(cats, songs) {
        assert forall|i: int|
            0 <= i < declared.len() implies crate::shared::consistency::spec_keys_contain(
            used,
            (#[trigger] declared[i]).id@,
            declared[i].name@,
        ) by {
            assert(spec_name_used(songs, cats[i].name@));
            let w = choose|w: int|
                0 <= w < songs.len() && (#[trigger] songs[w]).category@ == cats[i].name@;
            assert(used[w].id@ == declared[i].id@ && used[w].name@ == declared[i].name@);
        }
        assert forall|j: int|
            0 <= j < used.len() implies crate::shared::consistency::spec_keys_contain(
            declared,
            (#[trigger] used[j]).id@,
            used[j].name@,
        ) by {
            assert(spec_name_declared(cats, songs[j].category@));
            let w = choose|w: int|
                0 <= w < cats.len() && (#[trigger] cats[w]).name@ == songs[j].category@;
            assert(declared[w].id@ == used[j].id@ && declared[w].name@ == used[j].name@);
        }
    }
}

/// Some raw record references a category of this display name.
pub open spec fn spec_raw_name_used(raws: Seq<SongFromAPI>, name: Seq<char>) -> bool {
    exists|i: int| 0 <= i < raws.len() && (#[trigger] raws[i]).catcode@ == name
}

/// The fetched records and the given taxonomy describe the same name set.
pub open spec fn spec_raws_consistent(cats: Seq<Category>, raws: Seq<SongFromAPI>) -> bool {
    (forall|i: int| 0 <= i < cats.len() ==> spec_raw_name_used(raws, (#[trigger] cats[i]).name@))
        && (forall|j: int|
        0 <= j < raws.len() ==> spec_name_declared(cats, (#[trigger] raws[j]).catcode@))
}

/// The outcome of one source's run: the freshly built snapshot, and
/// whether it must be persisted.
pub struct SyncPlan {
    pub store: DataStore,
    pub write: bool,
}

/// Drive one maimai source from fetched raw records to a decision:
/// normalize, build the fresh snapshot with the given taxonomy, check
/// consistency, and compare against the loaded local snapshot.
pub fn plan_sync(
    name: &str,
    local: &Option<DataStore>,
    raws: &Vec<SongFromAPI>,
    categories: Vec<Category>,
) -> (r: Result<SyncPlan, SyncError>)
    ensures
        r is Ok <==> (spec_raws_ok(raws@) && spec_raws_consistent(categories@, raws@)),
        r matches Ok(p) ==> {
            &&& p.store.name@ == name@
            &&& p.store.count == raws@.len()
            &&& p.store.songs@.len() == raws@.len()
            &&& forall|i: int|
                0 <= i < raws@.len() ==> #[trigger] p.store.songs@[i] == spec_normalized_song(
                    raws@[i],
                )
            &&& p.store.categories == categories
            &&& spec_store_wf(p.store)
            &&& p.write == match local {
                Option::None => true,
                Option::Some(l) => l.spec_differs(&p.store),
            }
        },
        r matches Err(e) ==> match e {
            SyncError::Decode(de) => !spec_raws_ok(raws@),
            SyncError::Consistency(m) => spec_raws_ok(raws@) && !spec_raws_consistent(
                categories@,
                raws@,
            ) && (forall|k: int|
                0 <= k < m.extra@.len() ==> spec_raw_name_used(
                    raws@,
                    (#[trigger] m.extra@[k]).name@,
                ) && !spec_name_declared(categories@, m.extra@[k].name@)) && (forall|j: int|
                0 <= j < raws@.len() && !spec_name_declared(
                    categories@,
                    (#[trigger] raws@[j]).catcode@,
                ) ==> spec_report_names_contain(m.extra@, raws@[j].catcode@)) && (forall|k: int|
                0 <= k < m.missing@.len() ==> spec_name_declared(
                    categories@,
                    (#[trigger] m.missing@[k]).name@,
                ) && !spec_raw_name_used(raws@, m.missing@[k].name@)) && (forall|i: int|
                0 <= i < categories@.len() && !spec_raw_name_used(
                    raws@,
                    (#[trigger] categories@[i]).name@,
                ) ==> spec_report_names_contain(m.missing@, categories@[i].name@)),
        },
{
    let songs = match normalize_songs(raws) {
        Ok(s) => s,
        Err(e) => {
            return Err(SyncError::Decode(e));
        },
    };
    let ds = DataStore::new(name, songs, categories);
    proof {
        lemma_consistency_bridge(ds.categories@, ds.songs@, raws@);
    }
    match verify_categories(&ds) {
        Ok(()) => {},
        Err(m) => {
            proof {
                assert(ds.categories@ == categories@);
                assert forall|j: int|
                    0 <= j < ds.songs@.len() implies (#[trigger] ds.songs@[j]).category@
                    == raws@[j].catcode@ by {
                    assert(ds.songs@[j] == spec_normalized_song(raws@[j]));
                }
                assert forall|k: int|
                    0 <= k < m.extra@.len() implies spec_raw_name_used(
                    raws@,
                    (#[trigger] m.extra@[k]).name@,
                ) by {
                    let w = choose|w: int|
                        0 <= w < ds.songs@.len() && (#[trigger] ds.songs@[w]).category@
                            == m.extra@[k].name@;
                    assert(raws@[w].catcode@ == m.extra@[k].name@);
                }
                assert forall|j: int|
                    0 <= j < raws@.len() && !spec_name_declared(
                        categories@,
                        (#[trigger] raws@[j]).catcode@,
                    ) implies spec_report_names_contain(m.extra@, raws@[j].catcode@) by {
                    assert(ds.songs@[j].category@ == raws@[j].catcode@);
                }
                assert forall|k: int|
                    0 <= k < m.missing@.len() implies !spec_raw_name_used(
                    raws@,
                    (#[trigger] m.missing@[k]).name@,
                ) by {
                    if spec_raw_name_used(raws@, m.missing@[k].name@) {
                        let v = choose|v: int|
                            0 <= v < raws@.len() && (#[trigger] raws@[v]).catcode@
                                == m.missing@[k].name@;
                        assert(ds.songs@[v].category@ == m.missing@[k].name@);
                        assert(false);
                    }
                }
                assert forall|i: int|
                    0 <= i < categories@.len() && !spec_raw_name_used(
                        raws@,
                        (#[trigger] categories@[i]).name@,
                    ) implies spec_report_names_contain(m.missing@, categories@[i].name@) by {
                    if spec_name_used(ds.songs@, ds.categories@[i].name@) {
                        let w = choose|w: int|
                            0 <= w < ds.songs@.len() && (#[trigger] ds.songs@[w]).category@
                                == ds.categories@[i].name@;
                        assert(raws@[w].catcode@ == categories@[i].name@);
                        assert(false);
                    }
                    assert(!spec_name_used(ds.songs@, ds.categories@[i].name@));
                }
            }
            return Err(SyncError::Consistency(m));
        },
    };
    let write = match local {
        Option::None => true,
        Option::Some(l) => l.data_differs(&ds),
    };
    Ok(SyncPlan { store: ds, write })
}

/// With normalized songs, snapshot-level consistency coincides with the
/// raw-record statement.
proof fn lemma_consistency_bridge(cats: Seq<Category>, songs: Seq<Song>, raws: Seq<SongFromAPI>)
    requires
        songs.len() == raws.len(),
        forall|i: int| 0 <= i < raws.len() ==> #[trigger] songs[i] == spec_normalized_song(raws[i]),
    ensures
        spec_consistent(cats, songs) <==> spec_raws_consistent(cats, raws),
{
    assert forall|j: int| 0 <= j < songs.len() implies (#[trigger] songs[j]).category@
        == raws[j].catcode@ by {
        assert(songs[j] == spec_normalized_song(raws[j]));
    }
    if spec_consistent(cats, songs) {
        assert forall|i: int|
            0 <= i < cats.len() implies spec_raw_name_used(raws, (#[trigger] cats[i]).name@) by {
            assert(spec_name_used(songs, cats[i].name@));
            let w = choose|w: int|
                0 <= w < songs.len() && (#[trigger] songs[w]).category@ == cats[i].name@;
            assert(raws[w].catcode@ == cats[i].name@);
        }
        assert forall|j: int|
            0 <= j < raws.len() implies spec_name_declared(
            cats,
            (#[trigger] raws[j]).catcode@,
        ) by {
            assert(spec_name_declared(cats, songs[j].category@));
        }
    }
    if spec_raws_consistent(cats, raws) {
        assert forall|i: int|
            0 <= i < cats.len() implies spec_name_used(songs, (#[trigger] cats[i]).name@) by {
            assert(spec_raw_name_used(raws, cats[i].name@));
            let w = choose|w: int|
                0 <= w < raws.len() && (#[trigger] raws[w]).catcode@ == cats[i].name@;
            assert(songs[w].category@ == cats[i].name@);
        }
        assert forall|j: int|
            0 <= j < songs.len() implies spec_name_declared(
            cats,
            (#[trigger] songs[j]).category@,
        ) by {
            assert(spec_name_declared(cats, raws[j].catcode@));
        }
    }
}

} // verus!