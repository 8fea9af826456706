//! Canonical record types for the POLARIS CHORD source, and the
//! normalization of its raw wire records.  Categories are encoded as a
//! bitmask against the taxonomy's order.

use vstd::prelude::*;
use vstd::string::StringExecFns;

use crate::shared::clock::current_timestamp;
use crate::shared::strutil::{none_if_empty, opt_str_eq, opt_string_eq};
use crate::shared::traits::DataStore as DataStoreTrait;

use super::{get_all_categories, spec_all_categories, spec_category_name_of, spec_category_slug_of};

verus! {

/// The fixed form payload the listing endpoint expects.
pub struct APIInput {
    pub service_kind: &'static str,
}

impl Default for APIInput {
    fn default() -> (r: Self)
        ensures
            r.service_kind@ == "music_list"@,
    {
        APIInput { service_kind: "music_list" }
    }
}

/// Difficulty levels per chart tier; an absent tier is `None`.
#[derive(Debug, PartialEq)]
pub struct LevelMap {
    pub easy: Option<i32>,
    pub normal: Option<i32>,
    pub hard: Option<i32>,
    pub influence: Option<i32>,
    pub polar: Option<i32>,
}

/// A level value of zero is the absent sentinel.
pub open spec fn none_if_zero(v: Option<i32>) -> Option<i32> {
    match v {
        Option::None => Option::None,
        Option::Some(x) => if x == 0 {
            Option::None
        } else {
            Option::Some(x)
        },
    }
}

/// A taxonomy entry: the selector's numeric index, a stable slug, and a
/// display name.
#[derive(Debug, PartialEq)]
pub struct Category {
    pub bitflag: u32,
    pub slug: String,
    pub name: String,
}

/// Content equality of two categories.
pub open spec fn spec_category_eq(a: Category, b: Category) -> bool {
    a.bitflag == b.bitflag && a.slug@ == b.slug@ && a.name@ == b.name@
}

pub fn category_eq(a: &Category, b: &Category) -> (r: bool)
    ensures
        r == spec_category_eq(*a, *b),
{
    a.bitflag == b.bitflag && a.slug.eq(&b.slug) && a.name.eq(&b.name)
}

/// Element-wise content equality of two category sequences.
pub open spec fn spec_categories_eq(a: Seq<Category>, b: Seq<Category>) -> bool {
    a.len() == b.len() && forall|i: int| 0 <= i < a.len() ==> spec_category_eq(a[i], b[i])
}

pub fn categories_eq(a: &Vec<Category>, b: &Vec<Category>) -> (r: bool)
    ensures
        r == spec_categories_eq(a@, b@),
{
    if a.len() != b.len() {
        return false;
    }
    for i in 0..a.len()
        invariant
            a@.len() == b@.len(),
            forall|j: int| 0 <= j < i ==> spec_category_eq(a@[j], b@[j]),
    {
        if !category_eq(&a[i], &b[i]) {
            return false;
        }
    }
    true
}

/// One song as served by the listing endpoint, with sentinel fields in
/// raw form.  Field names follow the wire schema.
#[derive(Debug)]
pub struct SongFromAPI {
    pub music_id: String,
    pub genre: u32,
    pub name: String,
    pub composer: String,
    pub license: Option<String>,
    pub easy: Option<i32>,
    pub normal: Option<i32>,
    pub hard: Option<i32>,
    pub influence: Option<i32>,
    pub polar: Option<i32>,
}

/// The canonical, storage-ready song record.
#[derive(Debug, PartialEq)]
pub struct Song {
    pub id: String,
    pub title: String,
    pub artist: String,
    pub license: Option<String>,
    pub levels: LevelMap,
    pub categories: Vec<Category>,
}

/// Content equality of two level maps.
pub open spec fn spec_level_map_eq(a: LevelMap, b: LevelMap) -> bool {
    a.easy == b.easy && a.normal == b.normal && a.hard == b.hard && a.influence == b.influence
        && a.polar == b.polar
}

pub fn level_map_eq(a: &LevelMap, b: &LevelMap) -> (r: bool)
    ensures
        r == spec_level_map_eq(*a, *b),
{
    let easy_eq = match (&a.easy, &b.easy) {
        (Option::None, Option::None) => true,
        (Option::Some(x), Option::Some(y)) => *x == *y,
        _ => false,
    };
    let normal_eq = match (&a.normal, &b.normal) {
        (Option::None, Option::None) => true,
        (Option::Some(x), Option::Some(y)) => *x == *y,
        _ => false,
    };
    let hard_eq = match (&a.hard, &b.hard) {
        (Option::None, Option::None) => true,
        (Option::Some(x), Option::Some(y)) => *x == *y,
        _ => false,
    };
    let influence_eq = match (&a.influence, &b.influence) {
        (Option::None, Option::None) => true,
        (Option::Some(x), Option::Some(y)) => *x == *y,
        _ => false,
    };
    let polar_eq = match (&a.polar, &b.polar) {
        (Option::None, Option::None) => true,
        (Option::Some(x), Option::Some(y)) => *x == *y,
        _ => false,
    };
    easy_eq && normal_eq && hard_eq && influence_eq && polar_eq
}

/// Content equality of two canonical songs.
pub open spec fn spec_song_eq(a: Song, b: Song) -> bool {
    a.id@ == b.id@ && a.title@ == b.title@ && a.artist@ == b.artist@ && opt_str_eq(
        a.license,
        b.license,
    ) && spec_level_map_eq(a.levels, b.levels) && spec_categories_eq(a.categories@, b.categories@)
}

pub fn song_eq(a: &Song, b: &Song) -> (r: bool)
    ensures
        r == spec_song_eq(*a, *b),
{
    a.id.eq(&b.id) && a.title.eq(&b.title) && a.artist.eq(&b.artist) && opt_string_eq(
        &a.license,
        &b.license,
    ) && level_map_eq(&a.levels, &b.levels) && categories_eq(&a.categories, &b.categories)
}

/// Element-wise content equality of two song sequences.
pub open spec fn spec_songs_eq(a: Seq<Song>, b: Seq<Song>) -> bool {
    a.len() == b.len() && forall|i: int| 0 <= i < a.len() ==> spec_song_eq(a[i], b[i])
}

pub fn songs_eq(a: &Vec<Song>, b: &Vec<Song>) -> (r: bool)
    ensures
        r == spec_songs_eq(a@, b@),
{
    if a.len() != b.len() {
        return false;
    }
    for i in 0..a.len()
        invariant
            a@.len() == b@.len(),
            forall|j: int| 0 <= j < i ==> spec_song_eq(a@[j], b@[j]),
    {
        if !song_eq(&a[i], &b[i]) {
            return false;
        }
    }
    true
}

/// Bit `i` of the category bitmask is set.
pub open spec fn spec_bit_set(mask: u32, i: int) -> bool {
    0 <= i < 32 && (mask >> (i as u32)) & 1u32 == 1u32
}

/// The songs' categories are exactly the first `n` taxonomy entries whose
/// bit is set in `mask`, in taxonomy order.
pub open spec fn spec_selected_cats_ok(sel: Seq<Category>, mask: u32, n: int) -> bool
    decreases n,
{
    if n <= 0 {
        sel.len() == 0
    } else if spec_bit_set(mask, n - 1) {
        sel.len() > 0 && spec_selected_cats_ok(sel.drop_last(), mask, n - 1) && sel.last().bitflag
            == n as u32 && sel.last().slug@ == spec_category_slug_of(n - 1) && sel.last().name@
            == spec_category_name_of(n - 1)
    } else {
        spec_selected_cats_ok(sel, mask, n - 1)
    }
}

/// `s` is the canonical song of raw record `raw`.
pub open spec fn spec_song_from_raw(raw: SongFromAPI, s: Song) -> bool {
    s.id == raw.music_id && s.title == raw.name && s.artist == raw.composer && s.license
        == match raw.license {
        Option::None => Option::<String>::None,
        Option::Some(x) => none_if_empty(x),
    } && s.levels == (LevelMap {
        easy: none_if_zero(raw.easy),
        normal: none_if_zero(raw.normal),
        hard: none_if_zero(raw.hard),
        influence: none_if_zero(raw.influence),
        polar: none_if_zero(raw.polar),
    }) && spec_selected_cats_ok(s.categories@, raw.genre, 6)
}

impl Song {
    /// Normalize one raw record.  The genre bitmask picks the song's
    /// categories from the fixed taxonomy, in taxonomy order; bit `i`
    /// selects the taxonomy's `i`-th entry.
    pub fn from_api(raw: &SongFromAPI) -> (s: Song)
        ensures
            spec_song_from_raw(*raw, s),
    {
        let taxonomy = get_all_categories();
        let mut cats: Vec<Category> = Vec::new();
        let n = taxonomy.len();
        for i in 0..n
            invariant
                n == taxonomy@.len(),
                spec_all_categories(taxonomy@),
                spec_selected_cats_ok(cats@, raw.genre, i as int),
        {
            if (raw.genre >> (i as u32)) & 1 == 1 {
                let ghost c0 = cats@;
                cats.push(
                    Category {
                        bitflag: taxonomy[i].bitflag,
                        slug: taxonomy[i].slug.clone(),
                        name: taxonomy[i].name.clone(),
                    },
                );
                proof {
                    assert(cats@.drop_last() =~= c0);
                    assert(cats@.last().bitflag == taxonomy@[i as int].bitflag);
                    assert(spec_bit_set(raw.genre, i as int));
                }
            } else {
                proof {
                    assert(!spec_bit_set(raw.genre, i as int));
                }
            }
        }
        let license = match &raw.license {
            Option::None => Option::None,
            Option::Some(x) => {
                if x.as_str().is_empty() {
                    Option::None
                } else {
                    Option::Some(x.clone())
                }
            },
        };
        let levels = LevelMap {
            easy: match raw.easy {
                Option::None => Option::None,
                Option::Some(x) => if x == 0 {
                    Option::None
                } else {
                    Option::Some(x)
                },
            },
            normal: match raw.normal {
                Option::None => Option::None,
                Option::Some(x) => if x == 0 {
                    Option::None
                } else {
                    Option::Some(x)
                },
            },
            hard: match raw.hard {
                Option::None => Option::None,
                Option::Some(x) => if x == 0 {
                    Option::None
                } else {
                    Option::Some(x)
                },
            },
            influence: match raw.influence {
                Option::None => Option::None,
                Option::Some(x) => if x == 0 {
                    Option::None
                } else {
                    Option::Some(x)
                },
            },
            polar: match raw.polar {
                Option::None => Option::None,
                Option::Some(x) => if x == 0 {
                    Option::None
                } else {
                    Option::Some(x)
                },
            },
        };
        Song {
            id: raw.music_id.clone(),
            title: raw.name.clone(),
            artist: raw.composer.clone(),
            license,
            levels,
            categories: cats,
        }
    }
}

/// Normalize a whole fetched song list; no field of this source's wire
/// format can fail to decode.
pub fn normalize_songs(raws: &Vec<SongFromAPI>) -> (songs: Vec<Song>)
    ensures
        songs@.len() == raws@.len(),
        forall|i: int|
            0 <= i < raws@.len() ==> spec_song_from_raw(raws@[i], #[trigger] songs@[i]),
{
    let mut songs: Vec<Song> = Vec::new();
    for i in 0..raws.len()
        invariant
            songs@.len() == i,
            forall|j: int|
                0 <= j < i ==> spec_song_from_raw(raws@[j], #[trigger] songs@[j]),
    {
        songs.push(Song::from_api(&raws[i]));
    }
    songs
}

/// The persisted snapshot for the POLARIS CHORD source.
#[derive(Debug)]
pub struct DataStore {
    pub name: String,
    pub count: usize,
    pub last_updated: i64,
    pub songs: Vec<Song>,
    pub categories: Vec<Category>,
}

/// The derived count matches the song list.
pub open spec fn spec_store_wf(ds: DataStore) -> bool {
    ds.count == ds.songs@.len()
}

impl DataStore {
    /// Build a fresh snapshot from a fetched song list.  The category
    /// list is the fixed taxonomy; the timestamp is the wall clock and
    /// carries no promise.
    pub fn new(name: &str, songs: Vec<Song>) -> (r: DataStore)
        ensures
            r.name@ == name@,
            r.count == songs@.len(),
            r.songs == songs,
            spec_all_categories(r.categories@),
            spec_store_wf(r),
    {
        let count = songs.len();
        DataStore {
            name: String::from_str(name),
            count,
            last_updated: current_timestamp(),
            songs,
            categories: get_all_categories(),
        }
    }
}

impl DataStoreTrait for DataStore {
    /// Content difference: derived count, song sequence, category sequence.
    /// The timestamp never participates.
    open spec fn spec_differs(&self, other: &Self) -> bool {
        self.count != other.count || !spec_songs_eq(self.songs@, other.songs@)
            || !spec_categories_eq(self.categories@, other.categories@)
    }

    fn data_differs(&self, other: &Self) -> (r: bool) {
        self.count != other.count || !songs_eq(&self.songs, &other.songs)
            || !categories_eq(&self.categories, &other.categories)
    }
}

/// A snapshot never differs from itself.
pub proof fn lemma_differs_reflexive(s: &DataStore)
    ensures
        !s.spec_differs(s),
{
}

/// Two snapshots with equal content never differ, whatever their
/// last-synchronized timestamps (and names) are.
pub proof fn lemma_differs_ignores_timestamp(a: &DataStore, b: &DataStore)
    requires
        a.count == b.count,
        spec_songs_eq(a.songs@, b.songs@),
        spec_categories_eq(a.categories@, b.categories@),
    ensures
        !a.spec_differs(b),
        !b.spec_differs(a),
{
}

/// Appending one song to an otherwise identical snapshot is a difference.
pub proof fn lemma_differs_detects_append(a: &DataStore, b: &DataStore, s: Song)
    requires
        spec_store_wf(*a),
        spec_store_wf(*b),
        b.songs@ == a.songs@.push(s),
    ensures
        a.spec_differs(b),
{
}

/// Reordering the songs is a difference whenever the reordered sequence is
/// not element-wise content-equal to the original.
pub proof fn lemma_differs_detects_reorder(a: &DataStore, b: &DataStore)
    requires
        b.songs@ == a.songs@.reverse(),
        !spec_songs_eq(a.songs@, b.songs@),
    ensures
        a.spec_differs(b),
{
}

} // verus!
