//! Canonical record types for the two CHUNITHM sources, and the
//! normalization of their raw wire records.

use vstd::prelude::*;
use vstd::string::StringExecFns;

use crate::shared::clock::current_timestamp;
use crate::shared::deserializers::{
    bool_from_string, spec_bool_token_ok, spec_bool_token_value,
};
use crate::shared::errors::DecodeError;
use crate::shared::strutil::{none_if_empty, opt_str_eq, opt_string_eq};
use crate::shared::traits::DataStore as DataStoreTrait;

use super::deserializers::{empty_levels_as_none, empty_worlds_end_as_none};
use super::{get_all_categories, spec_all_categories};

verus! {

/// Difficulty labels per chart tier; an absent tier is `None`.
#[derive(Debug, PartialEq)]
pub struct LevelMap {
    pub basic: Option<String>,
    pub advanced: Option<String>,
    pub expert: Option<String>,
    pub master: Option<String>,
    pub ultima: Option<String>,
}

/// The WORLD'S END chart annotation: a kanji tag and a star rating.
#[derive(Debug, PartialEq)]
pub struct WorldsEndInfo {
    pub kanji: String,
    pub star: String,
}

/// Every tier of the level map is absent.
pub open spec fn spec_level_map_absent(m: LevelMap) -> bool {
    m.basic is None && m.advanced is None && m.expert is None && m.master is None
        && m.ultima is None
}

/// Content equality of two level maps.
pub open spec fn spec_level_map_eq(a: LevelMap, b: LevelMap) -> bool {
    opt_str_eq(a.basic, b.basic) && opt_str_eq(a.advanced, b.advanced)
        && opt_str_eq(a.expert, b.expert) && opt_str_eq(a.master, b.master)
        && opt_str_eq(a.ultima, b.ultima)
}

pub fn level_map_eq(a: &LevelMap, b: &LevelMap) -> (r: bool)
    ensures
        r == spec_level_map_eq(*a, *b),
{
    opt_string_eq(&a.basic, &b.basic) && opt_string_eq(&a.advanced, &b.advanced)
        && opt_string_eq(&a.expert, &b.expert) && opt_string_eq(&a.master, &b.master)
        && opt_string_eq(&a.ultima, &b.ultima)
}

/// Content equality of two WORLD'S END annotations.
pub open spec fn spec_worlds_end_eq(a: WorldsEndInfo, b: WorldsEndInfo) -> bool {
    a.kanji@ == b.kanji@ && a.star@ == b.star@
}

pub fn worlds_end_eq(a: &WorldsEndInfo, b: &WorldsEndInfo) -> (r: bool)
    ensures
        r == spec_worlds_end_eq(*a, *b),
{
    a.kanji.eq(&b.kanji) && a.star.eq(&b.star)
}

/// One song as served by the remote JSON document, with every
/// sentinel-encoded field still in its raw form.
#[derive(Debug)]
pub struct SongFromAPI {
    pub id: String,
    pub title: String,
    pub title_reading: String,
    pub artist: String,
    pub image: String,
    pub category: String,
    pub newflag: String,
    pub lev_bas: String,
    pub lev_adv: String,
    pub lev_exp: String,
    pub lev_mas: String,
    pub lev_ult: String,
    pub we_kanji: String,
    pub we_star: String,
}

/// The canonical, storage-ready song record.
#[derive(Debug, PartialEq)]
pub struct Song {
    pub id: String,
    pub title: String,
    pub title_reading: String,
    pub artist: String,
    pub image: String,
    pub category: String,
    pub is_new: bool,
    pub levels: Option<LevelMap>,
    pub worlds_end: Option<WorldsEndInfo>,
}

/// Content equality of two canonical songs.
pub open spec fn spec_song_eq(a: Song, b: Song) -> bool {
    a.id@ == b.id@ && a.title@ == b.title@ && a.title_reading@ == b.title_reading@
        && a.artist@ == b.artist@ && a.image@ == b.image@ && a.category@ == b.category@
        && a.is_new == b.is_new
        && match (a.levels, b.levels) {
            (Option::None, Option::None) => true,
            (Option::Some(x), Option::Some(y)) => spec_level_map_eq(x, y),
            _ => false,
        }
        && match (a.worlds_end, b.worlds_end) {
            (Option::None, Option::None) => true,
            (Option::Some(x), Option::Some(y)) => spec_worlds_end_eq(x, y),
            _ => false,
        }
}

pub fn song_eq(a: &Song, b: &Song) -> (r: bool)
    ensures
        r == spec_song_eq(*a, *b),
{
    a.id.eq(&b.id) && a.title.eq(&b.title) && a.title_reading.eq(&b.title_reading)
        && a.artist.eq(&b.artist) && a.image.eq(&b.image) && a.category.eq(&b.category)
        && a.is_new == b.is_new
        && match (&a.levels, &b.levels) {
            (Option::None, Option::None) => true,
            (Option::Some(x), Option::Some(y)) => level_map_eq(x, y),
            _ => false,
        }
        && match (&a.worlds_end, &b.worlds_end) {
            (Option::None, Option::None) => true,
            (Option::Some(x), Option::Some(y)) => worlds_end_eq(x, y),
            _ => false,
        }
}

/// Element-wise content equality of two song sequences.
pub open spec fn spec_songs_eq(a: Seq<Song>, b: Seq<Song>) -> bool {
    a.len() == b.len() && forall|i: int| 0 <= i < a.len() ==> spec_song_eq(a[i], b[i])
}

pub fn songs_eq(a: &Vec<Song>, b: &Vec<Song>) -> (r: bool)
    ensures
        r == spec_songs_eq(a@, b@),
{
    if a.len() != b.len() {
        return false;
    }
    for i in 0..a.len()
        invariant
            a@.len() == b@.len(),
            forall|j: int| 0 <= j < i ==> spec_song_eq(a@[j], b@[j]),
    {
        if !song_eq(&a[i], &b[i]) {
            return false;
        }
    }
    true
}

/// A taxonomy entry: a stable slug and a display name.
#[derive(Debug, PartialEq)]
pub struct Category {
    pub slug: String,
    pub name: String,
}

/// Content equality of two categories.
pub open spec fn spec_category_eq(a: Category, b: Category) -> bool {
    a.slug@ == b.slug@ && a.name@ == b.name@
}

pub fn category_eq(a: &Category, b: &Category) -> (r: bool)
    ensures
        r == spec_category_eq(*a, *b),
{
    a.slug.eq(&b.slug) && a.name.eq(&b.name)
}

/// Element-wise content equality of two category sequences.
pub open spec fn spec_categories_eq(a: Seq<Category>, b: Seq<Category>) -> bool {
    a.len() == b.len() && forall|i: int| 0 <= i < a.len() ==> spec_category_eq(a[i], b[i])
}

pub fn categories_eq(a: &Vec<Category>, b: &Vec<Category>) -> (r: bool)
    ensures
        r == spec_categories_eq(a@, b@),
{
    if a.len() != b.len() {
        return false;
    }
    for i in 0..a.len()
        invariant
            a@.len() == b@.len(),
            forall|j: int| 0 <= j < i ==> spec_category_eq(a@[j], b@[j]),
    {
        if !category_eq(&a[i], &b[i]) {
            return false;
        }
    }
    true
}

/// The level map a raw record normalizes to, before the all-absent collapse.
pub open spec fn spec_raw_levels(raw: SongFromAPI) -> LevelMap {
    LevelMap {
        basic: none_if_empty(raw.lev_bas),
        advanced: none_if_empty(raw.lev_adv),
        expert: none_if_empty(raw.lev_exp),
        master: none_if_empty(raw.lev_mas),
        ultima: none_if_empty(raw.lev_ult),
    }
}

/// The collapsed level map of a raw record: absent when every tier is.
pub open spec fn spec_norm_levels(raw: SongFromAPI) -> Option<LevelMap> {
    if spec_level_map_absent(spec_raw_levels(raw)) {
        Option::None
    } else {
        Option::Some(spec_raw_levels(raw))
    }
}

/// The collapsed WORLD'S END annotation: absent when both fields are empty.
pub open spec fn spec_norm_worlds_end(raw: SongFromAPI) -> Option<WorldsEndInfo> {
    if raw.we_kanji@.len() == 0 && raw.we_star@.len() == 0 {
        Option::None
    } else {
        Option::Some(WorldsEndInfo { kanji: raw.we_kanji, star: raw.we_star })
    }
}

/// The canonical song a well-formed raw record normalizes to.
pub open spec fn spec_normalized_song(raw: SongFromAPI) -> Song {
    Song {
        id: raw.id,
        title: raw.title,
        title_reading: raw.title_reading,
        artist: raw.artist,
        image: raw.image,
        category: raw.category,
        is_new: spec_bool_token_value(raw.newflag@),
        levels: spec_norm_levels(raw),
        worlds_end: spec_norm_worlds_end(raw),
    }
}

impl Song {
    /// Normalize one raw record.  Fails exactly when the new-song flag is
    /// not one of the tokens the source uses.
    pub fn from_api(raw: &SongFromAPI) -> (r: Result<Song, DecodeError>)
        ensures
            r is Ok <==> spec_bool_token_ok(raw.newflag@),
            r matches Ok(s) ==> s == spec_normalized_song(*raw),
            r matches Err(e) ==> (e matches DecodeError::UnknownBoolToken(t)
                && t@ == raw.newflag@),
    {
        let is_new = match bool_from_string(raw.newflag.as_str()) {
            Ok(b) => b,
            Err(e) => {
                return Err(e);
            },
        };
        let lm = LevelMap {
            basic: if raw.lev_bas.as_str().is_empty() {
                Option::None
            } else {
                Option::Some(raw.lev_bas.clone())
            },
            advanced: if raw.lev_adv.as_str().is_empty() {
                Option::None
            } else {
                Option::Some(raw.lev_adv.clone())
            },
            expert: if raw.lev_exp.as_str().is_empty() {
                Option::None
            } else {
                Option::Some(raw.lev_exp.clone())
            },
            master: if raw.lev_mas.as_str().is_empty() {
                Option::None
            } else {
                Option::Some(raw.lev_mas.clone())
            },
            ultima: if raw.lev_ult.as_str().is_empty() {
                Option::None
            } else {
                Option::Some(raw.lev_ult.clone())
            },
        };
        let we = WorldsEndInfo { kanji: raw.we_kanji.clone(), star: raw.we_star.clone() };
        Ok(Song {
            id: raw.id.clone(),
            title: raw.title.clone(),
            title_reading: raw.title_reading.clone(),
            artist: raw.artist.clone(),
            image: raw.image.clone(),
            category: raw.category.clone(),
            is_new,
            levels: empty_levels_as_none(lm),
            worlds_end: empty_worlds_end_as_none(we),
        })
    }
}

/// Every raw record in the sequence decodes.
pub open spec fn spec_raws_ok(raws: Seq<SongFromAPI>) -> bool {
    forall|i: int| 0 <= i < raws.len() ==> spec_bool_token_ok(#[trigger] raws[i].newflag@)
}

/// The canonical songs of a sequence of well-formed raw records,
/// element by element.
pub open spec fn spec_normalized_seq_eq(raws: Seq<SongFromAPI>, songs: Seq<Song>) -> bool {
    songs.len() == raws.len() && forall|i: int|
        0 <= i < raws.len() ==> #[trigger] songs[i] == spec_normalized_song(raws[i])
}

/// Normalize a whole fetched song list; the first undecodable record is the
/// error for the whole source.
pub fn normalize_songs(raws: &Vec<SongFromAPI>) -> (r: Result<Vec<Song>, DecodeError>)
    ensures
        r is Ok <==> spec_raws_ok(raws@),
        r matches Ok(songs) ==> spec_normalized_seq_eq(raws@, songs@),
        r matches Err(e) ==> (e matches DecodeError::UnknownBoolToken(t)
            && exists|i: int| 0 <= i < raws@.len() && t@ == #[trigger] raws@[i].newflag@
                && !spec_bool_token_ok(raws@[i].newflag@)),
{
    let mut songs: Vec<Song> = Vec::new();
    for i in 0..raws.len()
        invariant
            songs@.len() == i,
            forall|j: int| 0 <= j < i ==> spec_bool_token_ok(#[trigger] raws@[j].newflag@),
            forall|j: int|
                0 <= j < i ==> #[trigger] songs@[j] == spec_normalized_song(raws@[j]),
    {
        match Song::from_api(&raws[i]) {
            Ok(s) => songs.push(s),
            Err(e) => {
                return Err(e);
            },
        }
    }
    Ok(songs)
}

/// The persisted snapshot for one CHUNITHM source.
#[derive(Debug)]
pub struct DataStore {
    pub name: String,
    pub count: usize,
    pub last_updated: i64,
    pub songs: Vec<Song>,
    pub categories: Vec<Category>,
}

/// The derived count matches the song list.
pub open spec fn spec_store_wf(ds: DataStore) -> bool {
    ds.count == ds.songs@.len()
}

impl DataStore {
    /// Build a fresh snapshot from a fetched song list.  The category list
    /// is the fixed CHUNITHM taxonomy; the timestamp is the wall clock and
    /// carries no promise.
    pub fn new(name: &str, songs: Vec<Song>) -> (r: DataStore)
        ensures
            r.name@ == name@,
            r.count == songs@.len(),
            r.songs == songs,
            spec_all_categories(r.categories@),
            spec_store_wf(r),
    {
        let count = songs.len();
        DataStore {
            name: String::from_str(name),
            count,
            last_updated: current_timestamp(),
            songs,
            categories: get_all_categories(),
        }
    }
}

impl DataStoreTrait for DataStore {
    /// Content difference: derived count, song sequence, category sequence.
    /// The timestamp never participates.
    open spec fn spec_differs(&self, other: &Self) -> bool {
        self.count != other.count || !spec_songs_eq(self.songs@, other.songs@)
            || !spec_categories_eq(self.categories@, other.categories@)
    }

    fn data_differs(&self, other: &Self) -> (r: bool) {
        self.count != other.count || !songs_eq(&self.songs, &other.songs)
            || !categories_eq(&self.categories, &other.categories)
    }
}

/// A snapshot never differs from itself.
pub proof fn lemma_differs_reflexive(s: &DataStore)
    ensures
        !s.spec_differs(s),
{
}

/// Two snapshots with equal content never differ, whatever their
/// last-synchronized timestamps (and names) are.
pub proof fn lemma_differs_ignores_timestamp(a: &DataStore, b: &DataStore)
    requires
        a.count == b.count,
        spec_songs_eq(a.songs@, b.songs@),
        spec_categories_eq(a.categories@, b.categories@),
    ensures
        !a.spec_differs(b),
        !b.spec_differs(a),
{
}

/// Appending one song to an otherwise identical snapshot is a difference.
pub proof fn lemma_differs_detects_append(a: &DataStore, b: &DataStore, s: Song)
    requires
        spec_store_wf(*a),
        spec_store_wf(*b),
        b.songs@ == a.songs@.push(s),
    ensures
        a.spec_differs(b),
{
}

/// Reordering the songs is a difference whenever the reordered sequence is
/// not element-wise content-equal to the original, as is the case for any
/// genuine reversal.
pub proof fn lemma_differs_detects_reorder(a: &DataStore, b: &DataStore)
    requires
        b.songs@ == a.songs@.reverse(),
        !spec_songs_eq(a.songs@, b.songs@),
    ensures
        a.spec_differs(b),
{
}

} // verus!
