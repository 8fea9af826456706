//! The SOUND VOLTEX source: scraped from paginated HTML, with songs that
//! may belong to several categories at once.

pub mod models;

use vstd::prelude::*;
use vstd::string::StringExecFns;

use crate::extractors::soundvoltex_vi::{spec_assembled_songs, FetchedPage, SoundVoltexVIExtractor};
use crate::shared::consistency::{
    check_key_sets, spec_keys_contain, spec_same_key_sets, CategoryKey, CategoryMismatch,
};
use crate::shared::errors::SyncError;
use crate::shared::traits::{DataStore as DataStoreTrait, Otoge};

use models::{spec_store_wf, Category, DataStore, Song};

verus! {

/// The SOUND VOLTEX service.
pub struct SoundVoltex;

impl Otoge for SoundVoltex {
    open spec fn spec_name() -> Seq<char> {
        "soundvoltex"@
    }

    fn name() -> (r: &'static str) {
        "soundvoltex"
    }
}

/// The fixed SOUND VOLTEX taxonomy, entry by entry.
pub open spec fn spec_all_categories(s: Seq<Category>) -> bool {
    s.len() == 8 && s[0].id@ == "pops"@ && s[0].name@ == "POPS&アニメ"@ && s[1].id@ == "toho"@
        && s[1].name@ == "東方アレンジ"@ && s[2].id@ == "vocaloid"@ && s[2].name@
        == "ボーカロイド"@ && s[3].id@ == "bemani"@ && s[3].name@ == "BEMANI"@ && s[4].id@
        == "hinabita"@ && s[4].name@ == "ひなビタ♪/バンめし♪"@ && s[5].id@ == "floor"@
        && s[5].name@ == "FLOOR"@ && s[6].id@ == "sdvx"@ && s[6].name@ == "SDVXオリジナル"@
        && s[7].id@ == "others"@ && s[7].name@ == "その他"@
}

/// The fixed category taxonomy of the SOUND VOLTEX source.
pub fn get_all_categories() -> (r: Vec<Category>)
    ensures
        spec_all_categories(r@),
{
    let mut v: Vec<Category> = Vec::new();
    v.push(Category { id: String::from_str("pops"), name: String::from_str("POPS&アニメ") });
    v.push(Category { id: String::from_str("toho"), name: String::from_str("東方アレンジ") });
    v.push(Category { id: String::from_str("vocaloid"), name: String::from_str("ボーカロイド") });
    v.push(Category { id: String::from_str("bemani"), name: String::from_str("BEMANI") });
    v.push(
        Category { id: String::from_str("hinabita"), name: String::from_str("ひなビタ♪/バンめし♪") },
    );
    v.push(Category { id: String::from_str("floor"), name: String::from_str("FLOOR") });
    v.push(Category { id: String::from_str("sdvx"), name: String::from_str("SDVXオリジナル") });
    v.push(Category { id: String::from_str("others"), name: String::from_str("その他") });
    v
}

/// Some declared category carries exactly this identifier and name.
pub open spec fn spec_pair_declared(cats: Seq<Category>, id: Seq<char>, name: Seq<char>) -> bool {
    exists|i: int| 0 <= i < cats.len() && (#[trigger] cats[i]).id@ == id && cats[i].name@ == name
}

/// Some song references a category of exactly this identifier and name.
pub open spec fn spec_pair_used(songs: Seq<Song>, id: Seq<char>, name: Seq<char>) -> bool {
    exists|i: int, j: int|
        0 <= i < songs.len() && 0 <= j < songs[i].categories@.len()
            && (#[trigger] songs[i].categories@[j]).id@ == id && songs[i].categories@[j].name@
            == name
}

/// The declared taxonomy and the category pairs the songs use describe
/// the same set.  Songs may carry several categories; all of them count.
pub open spec fn spec_consistent(cats: Seq<Category>, songs: Seq<Song>) -> bool {
    (forall|i: int|
        0 <= i < cats.len() ==> spec_pair_used(songs, (#[trigger] cats[i]).id@, cats[i].name@))
        && (forall|i: int, j: int|
        0 <= i < songs.len() && 0 <= j < songs[i].categories@.len() ==> spec_pair_declared(
            cats,
            (#[trigger] songs[i].categories@[j]).id@,
            songs[i].categories@[j].name@,
        ))
}

/// Set-mode consistency check over (identifier, name) pairs: the declared
/// taxonomy and the pairs used across all songs must be the same set;
/// otherwise both difference sets are reported.
pub fn verify_categories(ds: &DataStore) -> (r: Result<(), CategoryMismatch>)
    ensures
        r is Ok <==> spec_consistent(ds.categories@, ds.songs@),
        r matches Err(m) ==> {
            &&& forall|k: int|
                0 <= k < m.extra@.len() ==> spec_pair_used(
                    ds.songs@,
                    (#[trigger] m.extra@[k]).id@,
                    m.extra@[k].name@,
                ) && !spec_pair_declared(ds.categories@, m.extra@[k].id@, m.extra@[k].name@)
            &&& forall|i: int, j: int|
                0 <= i < ds.songs@.len() && 0 <= j < ds.songs@[i].categories@.len()
                    && !spec_pair_declared(
                    ds.categories@,
                    (#[trigger] ds.songs@[i].categories@[j]).id@,
                    ds.songs@[i].categories@[j].name@,
                ) ==> spec_keys_contain(
                    m.extra@,
                    ds.songs@[i].categories@[j].id@,
                    ds.songs@[i].categories@[j].name@,
                )
            &&& forall|k: int|
                0 <= k < m.missing@.len() ==> spec_pair_declared(
                    ds.categories@,
                    (#[trigger] m.missing@[k]).id@,
                    m.missing@[k].name@,
                ) && !spec_pair_used(ds.songs@, m.missing@[k].id@, m.missing@[k].name@)
            &&& forall|i: int|
                0 <= i < ds.categories@.len() && !spec_pair_used(
                    ds.songs@,
                    (#[trigger] ds.categories@[i]).id@,
                    ds.categories@[i].name@,
                ) ==> spec_keys_contain(
                    m.missing@,
                    ds.categories@[i].id@,
                    ds.categories@[i].name@,
                )
        },
{
    let mut declared: Vec<CategoryKey> = Vec::new();
    for i in 0..ds.categories.len()
        invariant
            declared@.len() == i,
            forall|j: int|
                0 <= j < i ==> (#[trigger] declared@[j]).id@ == ds.categories@[j].id@
                    && declared@[j].name@ == ds.categories@[j].name@,
    {
        declared.push(
            CategoryKey { id: ds.categories[i].id.clone(), name: ds.categories[i].name.clone() },
        );
    }
    let mut used: Vec<CategoryKey> = Vec::new();
    for i in 0..ds.songs.len()
        invariant
            forall|k: int|
                0 <= k < used@.len() ==> spec_pair_used(
                    ds.songs@,
                    (#[trigger] used@[k]).id@,
                    used@[k].name@,
                ),
            forall|a: int, b: int|
                0 <= a < i && 0 <= b < ds.songs@[a].categories@.len() ==> spec_keys_contain(
                    used@,
                    (#[trigger] ds.songs@[a].categories@[b]).id@,
                    ds.songs@[a].categories@[b].name@,
                ),
    {
        let song_cats = &ds.songs[i].categories;
        for j in 0..song_cats.len()
            invariant
                song_cats@ == ds.songs@[i as int].categories@,
                0 <= i < ds.songs@.len(),
                forall|k: int|
                    0 <= k < used@.len() ==> spec_pair_used(
                        ds.songs@,
                        (#[trigger] used@[k]).id@,
                        used@[k].name@,
                    ),
                forall|a: int, b: int|
                    0 <= a < i && 0 <= b < ds.songs@[a].categories@.len() ==> spec_keys_contain(
                        used@,
                        (#[trigger] ds.songs@[a].categories@[b]).id@,
                        ds.songs@[a].categories@[b].name@,
                    ),
                forall|b: int|
                    0 <= b < j ==> spec_keys_contain(
                        used@,
                        (#[trigger] ds.songs@[i as int].categories@[b]).id@,
                        ds.songs@[i as int].categories@[b].name@,
                    ),
        {
            let ghost u0 = used@;
            used.push(
                CategoryKey { id: song_cats[j].id.clone(), name: song_cats[j].name.clone() },
            );
            proof {
                assert(used@ == u0.push(used@[u0.len() as int]));
                assert(used@[u0.len() as int].id@ == ds.songs@[i as int].categories@[j as int].id@);
                assert forall|k: int|
                    0 <= k < used@.len() implies spec_pair_used(
                    ds.songs@,
                    (#[trigger] used@[k]).id@,
                    used@[k].name@,
                ) by {
                    if k < u0.len() {
                        assert(used@[k] == u0[k]);
                    } else {
                        assert(0 <= i < ds.songs@.len() && 0 <= j < ds.songs@[i as int].categories@.len());
                    }
                }
                assert forall|a: int, b: int|
                    0 <= a < i + 1 && 0 <= b < ds.songs@[a].categories@.len()
                        && !(a == i && b >= j + 1) implies spec_keys_contain(
                    used@,
                    (#[trigger] ds.songs@[a].categories@[b]).id@,
                    ds.songs@[a].categories@[b].name@,
                ) by {
                    if a < i || b < j {
                        let w = choose|w: int|
                            0 <= w < u0.len() && (#[trigger] u0[w]).id@ == ds.songs@[a].categories@[b].id@ && u0[w].name@ == ds.songs@[a].categories@[b].name@;
                        assert(used@[w] == u0[w]);
                    } else {
                        assert(used@[u0.len() as int].id@ == ds.songs@[a].categories@[b].id@);
                    }
                }
            }
        }
    }
    let r = check_key_sets(&declared, &used);
    proof {
        lemma_pair_keys_bridge(declared@, used@, ds.categories@, ds.songs@);
    }
    match r {
        Ok(()) => Ok(()),
        Err(m) => {
            proof {
                assert forall|k: int|
                    0 <= k < m.extra@.len() implies spec_pair_used(
                    ds.songs@,
                    (#[trigger] m.extra@[k]).id@,
                    m.extra@[k].name@,
                ) && !spec_pair_declared(ds.categories@, m.extra@[k].id@, m.extra@[k].name@) by {
                    let w = choose|w: int|
                        0 <= w < used@.len() && (#[trigger] used@[w]).id@ == m.extra@[k].id@
                            && used@[w].name@ == m.extra@[k].name@;
                    assert(spec_pair_used(ds.songs@, used@[w].id@, used@[w].name@));
                    if spec_pair_declared(ds.categories@, m.extra@[k].id@, m.extra@[k].name@) {
                        let v = choose|v: int|
                            0 <= v < ds.categories@.len() && (#[trigger] ds.categories@[v]).id@
                                == m.extra@[k].id@ && ds.categories@[v].name@
                                == m.extra@[k].name@;
                        assert(declared@[v].id@ == m.extra@[k].id@ && declared@[v].name@
                            == m.extra@[k].name@);
                        assert(false);
                    }
                }
                assert forall|i: int, j: int|
                    0 <= i < ds.songs@.len() && 0 <= j < ds.songs@[i].categories@.len()
                        && !spec_pair_declared(
                        ds.categories@,
                        (#[trigger] ds.songs@[i].categories@[j]).id@,
                        ds.songs@[i].categories@[j].name@,
                    ) implies spec_keys_contain(
                    m.extra@,
                    ds.songs@[i].categories@[j].id@,
                    ds.songs@[i].categories@[j].name@,
                ) by {
                    assert(spec_keys_contain(
                        used@,
                        ds.songs@[i].categories@[j].id@,
                        ds.songs@[i].categories@[j].name@,
                    ));
                    let w = choose|w: int|
                        0 <= w < used@.len() && (#[trigger] used@[w]).id@ == ds.songs@[i].categories@[j].id@ && used@[w].name@ == ds.songs@[i].categories@[j].name@;
                    if crate::shared::consistency::spec_keys_contain(
                        declared@,
                        used@[w].id@,
                        used@[w].name@,
                    ) {
                        let v = choose|v: int|
                            0 <= v < declared@.len() && (#[trigger] declared@[v]).id@ == used@[w].id@ && declared@[v].name@ == used@[w].name@;
                        assert(ds.categories@[v].id@ == used@[w].id@);
                        assert(false);
                    }
                }
                assert forall|k: int|
                    0 <= k < m.missing@.len() implies spec_pair_declared(
                    ds.categories@,
                    (#[trigger] m.missing@[k]).id@,
                    m.missing@[k].name@,
                ) && !spec_pair_used(ds.songs@, m.missing@[k].id@, m.missing@[k].name@) by {
                    let w = choose|w: int|
                        0 <= w < declared@.len() && (#[trigger] declared@[w]).id@ == m.missing@[k].id@ && declared@[w].name@ == m.missing@[k].name@;
                    assert(ds.categories@[w].id@ == m.missing@[k].id@ && ds.categories@[w].name@
                        == m.missing@[k].name@);
                    if spec_pair_used(ds.songs@, m.missing@[k].id@, m.missing@[k].name@) {
                        let (a, b): (int, int) = choose|a: int, b: int|
                            0 <= a < ds.songs@.len() && 0 <= b < ds.songs@[a].categories@.len()
                                && (#[trigger] ds.songs@[a].categories@[b]).id@ == m.missing@[k].id@ && ds.songs@[a].categories@[b].name@ == m.missing@[k].name@;
                        assert(spec_keys_contain(
                            used@,
                            ds.songs@[a].categories@[b].id@,
                            ds.songs@[a].categories@[b].name@,
                        ));
                        assert(false);
                    }
                }
                assert forall|i: int|
                    0 <= i < ds.categories@.len() && !spec_pair_used(
                        ds.songs@,
                        (#[trigger] ds.categories@[i]).id@,
                        ds.categories@[i].name@,
                    ) implies spec_keys_contain(
                    m.missing@,
                    ds.categories@[i].id@,
                    ds.categories@[i].name@,
                ) by {
                    assert(declared@[i].id@ == ds.categories@[i].id@ && declared@[i].name@
                        == ds.categories@[i].name@);
                    if crate::shared::consistency::spec_keys_contain(
                        used@,
                        declared@[i].id@,
                        declared@[i].name@,
                    ) {
                        let v = choose|v: int|
                            0 <= v < used@.len() && (#[trigger] used@[v]).id@ == declared@[i].id@
                                && used@[v].name@ == declared@[i].name@;
                        assert(spec_pair_used(ds.songs@, used@[v].id@, used@[v].name@));
                        assert(false);
                    }
                }
            }
            Err(m)
        },
    }
}

/// Key sequences carrying the snapshot's pairs agree with the
/// snapshot-level consistency statement.
proof fn lemma_pair_keys_bridge(
    declared: Seq<CategoryKey>,
    used: Seq<CategoryKey>,
    cats: Seq<Category>,
    songs: Seq<Song>,
)
    requires
        declared.len() == cats.len(),
        forall|j: int|
            0 <= j < declared.len() ==> (#[trigger] declared[j]).id@ == cats[j].id@
                && declared[j].name@ == cats[j].name@,
        forall|k: int|
            0 <= k < used.len() ==> spec_pair_used(
                songs,
                (#[trigger] used[k]).id@,
                used[k].name@,
            ),
        forall|a: int, b: int|
            0 <= a < songs.len() && 0 <= b < songs[a].categories@.len() ==> spec_keys_contain(
                used,
                (#[trigger] songs[a].categories@[b]).id@,
                songs[a].categories@[b].name@,
            ),
    ensures
        spec_same_key_sets(declared, used) <==> spec_consistent(cats, songs),
{
    if spec_same_key_sets(declared, used) {
        assert forall|i: int|
            0 <= i < cats.len() implies spec_pair_used(
            songs,
            (#[trigger] cats[i]).id@,
            cats[i].name@,
        ) by {
            assert(spec_keys_contain(used, declared[i].id@, declared[i].name@));
            let w = choose|w: int|
                0 <= w < used.len() && (#[trigger] used[w]).id@ == declared[i].id@
                    && used[w].name@ == declared[i].name@;
            assert(spec_pair_used(songs, used[w].id@, used[w].name@));
        }
        assert forall|i: int, j: int|
            0 <= i < songs.len() && 0 <= j < songs[i].categories@.len() implies spec_pair_declared(
            cats,
            (#[trigger] songs[i].categories@[j]).id@,
            songs[i].categories@[j].name@,
        ) by {
            assert(spec_keys_contain(
                used,
                songs[i].categories@[j].id@,
                songs[i].categories@[j].name@,
            ));
            let w = choose|w: int|
                0 <= w < used.len() && (#[trigger] used[w]).id@ == songs[i].categories@[j].id@
                    && used[w].name@ == songs[i].categories@[j].name@;
            assert(spec_keys_contain(declared, used[w].id@, used[w].name@));
            let v = choose|v: int|
                0 <= v < declared.len() && (#[trigger] declared[v]).id@ == used[w].id@
                    && declared[v].name@ == used[w].name@;
            assert(cats[v].id@ == songs[i].categories@[j].id@);
        }
    }
    if spec_consistent(cats, songs) {
        assert forall|i: int|
            0 <= i < declared.len() implies spec_keys_contain(
            used,
            (#[trigger] declared[i]).id@,
            declared[i].name@,
        ) by {
            assert(spec_pair_used(songs, cats[i].id@, cats[i].name@));
            let (a, b): (int, int) = choose|a: int, b: int|
                0 <= a < songs.len() && 0 <= b < songs[a].categories@.len()
                    && (#[trigger] songs[a].categories@[b]).id@ == cats[i].id@
                    && songs[a].categories@[b].name@ == cats[i].name@;
            assert(spec_keys_contain(
                used,
                songs[a].categories@[b].id@,
                songs[a].categories@[b].name@,
            ));
        }
        assert forall|j: int|
            0 <= j < used.len() implies spec_keys_contain(
            declared,
            (#[trigger] used[j]).id@,
            used[j].name@,
        ) by {
            assert(spec_pair_used(songs, used[j].id@, used[j].name@));
            let (a, b): (int, int) = choose|a: int, b: int|
                0 <= a < songs.len() && 0 <= b < songs[a].categories@.len()
                    && (#[trigger] songs[a].categories@[b]).id@ == used[j].id@
                    && songs[a].categories@[b].name@ == used[j].name@;
            assert(spec_pair_declared(cats, used[j].id@, used[j].name@));
            let v = choose|v: int|
                0 <= v < cats.len() && (#[trigger] cats[v]).id@ == used[j].id@ && cats[v].name@
                    == used[j].name@;
            assert(declared[v].id@ == used[j].id@ && declared[v].name@ == used[j].name@);
        }
    }
}

/// The (identifier, name) pairs of the fixed taxonomy.
pub open spec fn spec_taxonomy_pair(id: Seq<char>, name: Seq<char>) -> bool {
    (id == "pops"@ && name == "POPS&アニメ"@) || (id == "toho"@ && name == "東方アレンジ"@) || (
    id == "vocaloid"@ && name == "ボーカロイド"@) || (id == "bemani"@ && name == "BEMANI"@) || (
    id == "hinabita"@ && name == "ひなビタ♪/バンめし♪"@) || (id == "floor"@ && name == "FLOOR"@)
        || (id == "sdvx"@ && name == "SDVXオリジナル"@) || (id == "others"@ && name == "その他"@)
}

/// `m` reports exactly the disagreement between the assembled songs'
/// category pairs and the fixed taxonomy.
pub open spec fn spec_mismatch_reported(songs: Seq<Song>, m: CategoryMismatch) -> bool {
    (forall|k: int|
        0 <= k < m.extra@.len() ==> spec_pair_used(
            songs,
            (#[trigger] m.extra@[k]).id@,
            m.extra@[k].name@,
        ) && !spec_taxonomy_pair(m.extra@[k].id@, m.extra@[k].name@)) && (forall|i: int, j: int|
        0 <= i < songs.len() && 0 <= j < songs[i].categories@.len() && !spec_taxonomy_pair(
            (#[trigger] songs[i].categories@[j]).id@,
            songs[i].categories@[j].name@,
        ) ==> spec_keys_contain(
            m.extra@,
            songs[i].categories@[j].id@,
            songs[i].categories@[j].name@,
        )) && (forall|k: int|
        0 <= k < m.missing@.len() ==> spec_taxonomy_pair(
            (#[trigger] m.missing@[k]).id@,
            m.missing@[k].name@,
        ) && !spec_pair_used(songs, m.missing@[k].id@, m.missing@[k].name@)) && (!spec_pair_used(
        songs,
        "pops"@,
        "POPS&アニメ"@,
    ) ==> spec_keys_contain(m.missing@, "pops"@, "POPS&アニメ"@)) && (!spec_pair_used(
        songs,
        "toho"@,
        "東方アレンジ"@,
    ) ==> spec_keys_contain(m.missing@, "toho"@, "東方アレンジ"@)) && (!spec_pair_used(
        songs,
        "vocaloid"@,
        "ボーカロイド"@,
    ) ==> spec_keys_contain(m.missing@, "vocaloid"@, "ボーカロイド"@)) && (!spec_pair_used(
        songs,
        "bemani"@,
        "BEMANI"@,
    ) ==> spec_keys_contain(m.missing@, "bemani"@, "BEMANI"@)) && (!spec_pair_used(
        songs,
        "hinabita"@,
        "ひなビタ♪/バンめし♪"@,
    ) ==> spec_keys_contain(m.missing@, "hinabita"@, "ひなビタ♪/バンめし♪"@)) && (!spec_pair_used(
        songs,
        "floor"@,
        "FLOOR"@,
    ) ==> spec_keys_contain(m.missing@, "floor"@, "FLOOR"@)) && (!spec_pair_used(
        songs,
        "sdvx"@,
        "SDVXオリジナル"@,
    ) ==> spec_keys_contain(m.missing@, "sdvx"@, "SDVXオリジナル"@)) && (!spec_pair_used(
        songs,
        "others"@,
        "その他"@,
    ) ==> spec_keys_contain(m.missing@, "others"@, "その他"@))
}

/// The outcome of the SOUND VOLTEX run: the freshly built snapshot, and
/// whether it must be persisted.
pub struct SyncPlan {
    pub store: DataStore,
    pub write: bool,
}

/// Drive the SOUND VOLTEX source from its processed pages to a decision:
/// reassemble the pages in page order, build the fresh snapshot, check
/// taxonomy consistency, and compare against the loaded local snapshot.
pub fn plan_sync(name: &str, local: &Option<DataStore>, pages: Vec<FetchedPage>) -> (r: Result<
    SyncPlan,
    SyncError,
>)
    ensures
        r is Ok <==> spec_consistent_with_taxonomy(spec_assembled_songs(pages@)),
        r matches Ok(p) ==> {
            &&& p.store.name@ == name@
            &&& p.store.songs@ == spec_assembled_songs(pages@)
            &&& p.store.count == spec_assembled_songs(pages@).len()
            &&& spec_all_categories(p.store.categories@)
            &&& spec_store_wf(p.store)
            &&& p.write == match local {
                Option::None => true,
                Option::Some(l) => l.spec_differs(&p.store),
            }
        },
        r matches Err(e) ==> (e matches SyncError::Consistency(m) && !spec_consistent_with_taxonomy(
            spec_assembled_songs(pages@),
        ) && spec_mismatch_reported(spec_assembled_songs(pages@), m)),
{
    let songs = SoundVoltexVIExtractor::assemble_pages(pages);
    let ds = DataStore::new(name, songs);
    proof {
        lemma_taxonomy_consistency(ds.categories@, ds.songs@);
    }
    match verify_categories(&ds) {
        Ok(()) => {},
        Err(m) => {
            proof {
                let songs = ds.songs@;
                let cats = ds.categories@;
                assert(songs == spec_assembled_songs(pages@));
                assert forall|id: Seq<char>, name: Seq<char>| #[trigger] spec_pair_declared(
                    cats,
                    id,
                    name,
                ) implies spec_taxonomy_pair(id, name) by {
                    let v = choose|v: int|
                        0 <= v < cats.len() && (#[trigger] cats[v]).id@ == id && cats[v].name@
                            == name;
                    if v == 0 {
                    } else if v == 1 {
                    } else if v == 2 {
                    } else if v == 3 {
                    } else if v == 4 {
                    } else if v == 5 {
                    } else if v == 6 {
                    } else {
                    }
                }
                assert forall|id: Seq<char>, name: Seq<char>| #[trigger] spec_taxonomy_pair(
                    id,
                    name,
                ) implies spec_pair_declared(cats, id, name) by {
                    if id == "pops"@ && name == "POPS&アニメ"@ {
                        assert(cats[0].id@ == id && cats[0].name@ == name);
                    } else if id == "toho"@ && name == "東方アレンジ"@ {
                        assert(cats[1].id@ == id && cats[1].name@ == name);
                    } else if id == "vocaloid"@ && name == "ボーカロイド"@ {
                        assert(cats[2].id@ == id && cats[2].name@ == name);
                    } else if id == "bemani"@ && name == "BEMANI"@ {
                        assert(cats[3].id@ == id && cats[3].name@ == name);
                    } else if id == "hinabita"@ && name == "ひなビタ♪/バンめし♪"@ {
                        assert(cats[4].id@ == id && cats[4].name@ == name);
                    } else if id == "floor"@ && name == "FLOOR"@ {
                        assert(cats[5].id@ == id && cats[5].name@ == name);
                    } else if id == "sdvx"@ && name == "SDVXオリジナル"@ {
                        assert(cats[6].id@ == id && cats[6].name@ == name);
                    } else {
                        assert(cats[7].id@ == id && cats[7].name@ == name);
                    }
                }
                assert(cats[0].id@ == "pops"@ && cats[0].name@ == "POPS&アニメ"@);
                assert(cats[1].id@ == "toho"@ && cats[1].name@ == "東方アレンジ"@);
                assert(cats[2].id@ == "vocaloid"@ && cats[2].name@ == "ボーカロイド"@);
                assert(cats[3].id@ == "bemani"@ && cats[3].name@ == "BEMANI"@);
                assert(cats[4].id@ == "hinabita"@ && cats[4].name@ == "ひなビタ♪/バンめし♪"@);
                assert(cats[5].id@ == "floor"@ && cats[5].name@ == "FLOOR"@);
                assert(cats[6].id@ == "sdvx"@ && cats[6].name@ == "SDVXオリジナル"@);
                assert(cats[7].id@ == "others"@ && cats[7].name@ == "その他"@);
                assert(spec_mismatch_reported(songs, m));
            }
            return Err(SyncError::Consistency(m));
        },
    };
    let write = match local {
        Option::None => true,
        Option::Some(l) => l.data_differs(&ds),
    };
    Ok(SyncPlan { store: ds, write })
}

/// Consistency of a song sequence against the fixed taxonomy, without
/// naming a particular category list value.
pub open spec fn spec_consistent_with_taxonomy(songs: Seq<Song>) -> bool {
    forall|cats: Seq<Category>| spec_all_categories(cats) ==> #[trigger] spec_consistent(
        cats,
        songs,
    )
}

/// Any two category lists that satisfy the fixed-taxonomy description
/// agree on consistency.
proof fn lemma_taxonomy_consistency(cats: Seq<Category>, songs: Seq<Song>)
    requires
        spec_all_categories(cats),
    ensures
        spec_consistent(cats, songs) <==> spec_consistent_with_taxonomy(songs),
{
    if spec_consistent(cats, songs) {
        assert forall|cats2: Seq<Category>|
            spec_all_categories(cats2) implies #[trigger] spec_consistent(cats2, songs) by {
            assert forall|i: int|
                0 <= i < cats2.len() implies spec_pair_used(
                songs,
                (#[trigger] cats2[i]).id@,
                cats2[i].name@,
            ) by {
                assert(cats[i].id@ == cats2[i].id@ && cats[i].name@ == cats2[i].name@);
            }
            assert forall|i: int, j: int|
                0 <= i < songs.len() && 0 <= j
                    < songs[i].categories@.len() implies spec_pair_declared(
                cats2,
                (#[trigger] songs[i].categories@[j]).id@,
                songs[i].categories@[j].name@,
            ) by {
                assert(spec_pair_declared(
                    cats,
                    songs[i].categories@[j].id@,
                    songs[i].categories@[j].name@,
                ));
                let v = choose|v: int|
                    0 <= v < cats.len() && (#[trigger] cats[v]).id@ == songs[i].categories@[j].id@ && cats[v].name@ == songs[i].categories@[j].name@;
                assert(cats2[v].id@ == songs[i].categories@[j].id@ && cats2[v].name@ == songs[i].categories@[j].name@);
            }
        }
    }
}

} // verus!
