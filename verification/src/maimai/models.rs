//! Canonical record types for the two maimai sources, and the
//! normalization of their raw wire records.

use vstd::prelude::*;
use vstd::string::StringExecFns;

use crate::shared::clock::current_timestamp;
use crate::shared::dates::Date;
use crate::shared::deserializers::{
    bool_from_option_string, spec_opt_bool_token_ok,
};
use crate::shared::errors::DecodeError;
use crate::shared::strutil::{none_if_empty, opt_str_eq, opt_string_eq};
use crate::shared::traits::DataStore as DataStoreTrait;

use super::deserializers::{deserialize_date, spec_release_ok};

verus! {

/// Every sentinel-encoded field of the raw record decodes.
pub open spec fn spec_raw_song_ok(raw: SongFromAPI) -> bool {
    spec_release_ok(raw.release@) && spec_opt_bool_token_ok(raw.date) && spec_opt_bool_token_ok(
        raw.key,
    )
}

/// Difficulty labels per standard chart tier; an absent tier is `None`.
#[derive(Debug, PartialEq)]
pub struct LevelMap {
    pub basic: Option<String>,
    pub advanced: Option<String>,
    pub expert: Option<String>,
    pub master: Option<String>,
    pub remaster: Option<String>,
}

/// Difficulty labels per DX chart tier; an absent tier is `None`.
#[derive(Debug, PartialEq)]
pub struct DXLevelMap {
    pub basic: Option<String>,
    pub advanced: Option<String>,
    pub expert: Option<String>,
    pub master: Option<String>,
    pub remaster: Option<String>,
}

/// The utage chart annotation.
#[derive(Debug, PartialEq)]
pub struct Utage {
    pub level: String,
    pub kanji: String,
    pub comment: String,
}

/// Every tier of the standard level map is absent.
pub open spec fn spec_level_map_absent(m: LevelMap) -> bool {
    m.basic is None && m.advanced is None && m.expert is None && m.master is None
        && m.remaster is None
}

/// Every tier of the DX level map is absent.
pub open spec fn spec_dx_level_map_absent(m: DXLevelMap) -> bool {
    m.basic is None && m.advanced is None && m.expert is None && m.master is None
        && m.remaster is None
}

/// Content equality of two standard level maps.
pub open spec fn spec_level_map_eq(a: LevelMap, b: LevelMap) -> bool {
    opt_str_eq(a.basic, b.basic) && opt_str_eq(a.advanced, b.advanced)
        && opt_str_eq(a.expert, b.expert) && opt_str_eq(a.master, b.master)
        && opt_str_eq(a.remaster, b.remaster)
}

/// Content equality of two DX level maps.
pub open spec fn spec_dx_level_map_eq(a: DXLevelMap, b: DXLevelMap) -> bool {
    opt_str_eq(a.basic, b.basic) && opt_str_eq(a.advanced, b.advanced)
        && opt_str_eq(a.expert, b.expert) && opt_str_eq(a.master, b.master)
        && opt_str_eq(a.remaster, b.remaster)
}

/// Content equality of two utage annotations.
pub open spec fn spec_utage_eq(a: Utage, b: Utage) -> bool {
    a.level@ == b.level@ && a.kanji@ == b.kanji@ && a.comment@ == b.comment@
}

pub fn level_map_eq(a: &LevelMap, b: &LevelMap) -> (r: bool)
    ensures
        r == spec_level_map_eq(*a, *b),
{
    opt_string_eq(&a.basic, &b.basic) && opt_string_eq(&a.advanced, &b.advanced)
        && opt_string_eq(&a.expert, &b.expert) && opt_string_eq(&a.master, &b.master)
        && opt_string_eq(&a.remaster, &b.remaster)
}

pub fn dx_level_map_eq(a: &DXLevelMap, b: &DXLevelMap) -> (r: bool)
    ensures
        r == spec_dx_level_map_eq(*a, *b),
{
    opt_string_eq(&a.basic, &b.basic) && opt_string_eq(&a.advanced, &b.advanced)
        && opt_string_eq(&a.expert, &b.expert) && opt_string_eq(&a.master, &b.master)
        && opt_string_eq(&a.remaster, &b.remaster)
}

pub fn utage_eq(a: &Utage, b: &Utage) -> (r: bool)
    ensures
        r == spec_utage_eq(*a, *b),
{
    a.level.eq(&b.level) && a.kanji.eq(&b.kanji) && a.comment.eq(&b.comment)
}

/// One song as served by the remote JSON document, with every
/// sentinel-encoded field still in its raw form.  Field names follow the
/// wire schema.
#[derive(Debug)]
pub struct SongFromAPI {
    pub sort: String,
    pub title: String,
    pub title_kana: String,
    pub artist: String,
    pub image_url: String,
    pub catcode: String,
    pub release: String,
    pub version: String,
    pub date: Option<String>,
    pub key: Option<String>,
    pub buddy: Option<String>,
    pub lev_bas: String,
    pub lev_adv: String,
    pub lev_exp: String,
    pub lev_mas: String,
    pub lev_remas: String,
    pub dx_lev_bas: String,
    pub dx_lev_adv: String,
    pub dx_lev_exp: String,
    pub dx_lev_mas: String,
    pub dx_lev_remas: String,
    pub lev_utage: String,
    pub kanji: String,
    pub comment: String,
}

/// The canonical, storage-ready song record.
#[derive(Debug, PartialEq)]
pub struct Song {
    pub id: String,
    pub title: String,
    pub title_reading: String,
    pub artist: String,
    pub image: String,
    pub category: String,
    pub version: String,
    pub release: Option<Date>,
    pub is_new: bool,
    pub is_locked: bool,
    pub levels: Option<LevelMap>,
    pub dx_levels: Option<DXLevelMap>,
    pub utage: Option<Utage>,
}

/// Content equality of two canonical songs.
pub open spec fn spec_song_eq(a: Song, b: Song) -> bool {
    a.id@ == b.id@ && a.title@ == b.title@ && a.title_reading@ == b.title_reading@
        && a.artist@ == b.artist@ && a.image@ == b.image@ && a.category@ == b.category@
        && a.version@ == b.version@ && a.release == b.release && a.is_new == b.is_new
        && a.is_locked == b.is_locked
        && match (a.levels, b.levels) {
            (Option::None, Option::None) => true,
            (Option::Some(x), Option::Some(y)) => spec_level_map_eq(x, y),
            _ => false,
        }
        && match (a.dx_levels, b.dx_levels) {
            (Option::None, Option::None) => true,
            (Option::Some(x), Option::Some(y)) => spec_dx_level_map_eq(x, y),
            _ => false,
        }
        && match (a.utage, b.utage) {
            (Option::None, Option::None) => true,
            (Option::Some(x), Option::Some(y)) => spec_utage_eq(x, y),
            _ => false,
        }
}

pub fn song_eq(a: &Song, b: &Song) -> (r: bool)
    ensures
        r == spec_song_eq(*a, *b),
{
    let release_eq = match (&a.release, &b.release) {
        (Option::None, Option::None) => true,
        (Option::Some(x), Option::Some(y)) => *x == *y,
        _ => false,
    };
    a.id.eq(&b.id) && a.title.eq(&b.title) && a.title_reading.eq(&b.title_reading)
        && a.artist.eq(&b.artist) && a.image.eq(&b.image) && a.category.eq(&b.category)
        && a.version.eq(&b.version) && release_eq && a.is_new == b.is_new && a.is_locked
        == b.is_locked
        && match (&a.levels, &b.levels) {
            (Option::None, Option::None) => true,
            (Option::Some(x), Option::Some(y)) => level_map_eq(x, y),
            _ => false,
        }
        && match (&a.dx_levels, &b.dx_levels) {
            (Option::None, Option::None) => true,
            (Option::Some(x), Option::Some(y)) => dx_level_map_eq(x, y),
            _ => false,
        }
        && match (&a.utage, &b.utage) {
            (Option::None, Option::None) => true,
            (Option::Some(x), Option::Some(y)) => utage_eq(x, y),
            _ => false,
        }
}

/// Element-wise content equality of two song sequences.
pub open spec fn spec_songs_eq(a: Seq<Song>, b: Seq<Song>) -> bool {
    a.len() == b.len() && forall|i: int| 0 <= i < a.len() ==> spec_song_eq(a[i], b[i])
}

pub fn songs_eq(a: &Vec<Song>, b: &Vec<Song>) -> (r: bool)
    ensures
        r == spec_songs_eq(a@, b@),
{
    if a.len() != b.len() {
        return false;
    }
    for i in 0..a.len()
        invariant
            a@.len() == b@.len(),
            forall|j: int| 0 <= j < i ==> spec_song_eq(a@[j], b@[j]),
    {
        if !song_eq(&a[i], &b[i]) {
            return false;
        }
    }
    true
}

/// A taxonomy entry: a stable slug and a display name.
#[derive(Debug, PartialEq)]
pub struct Category {
    pub slug: String,
    pub name: String,
}

/// Content equality of two categories.
pub open spec fn spec_category_eq(a: Category, b: Category) -> bool {
    a.slug@ == b.slug@ && a.name@ == b.name@
}

pub fn category_eq(a: &Category, b: &Category) -> (r: bool)
    ensures
        r == spec_category_eq(*a, *b),
{
    a.slug.eq(&b.slug) && a.name.eq(&b.name)
}

/// Element-wise content equality of two category sequences.
pub open spec fn spec_categories_eq(a: Seq<Category>, b: Seq<Category>) -> bool {
    a.len() == b.len() && forall|i: int| 0 <= i < a.len() ==> spec_category_eq(a[i], b[i])
}

pub fn categories_eq(a: &Vec<Category>, b: &Vec<Category>) -> (r: bool)
    ensures
        r == spec_categories_eq(a@, b@),
{
    if a.len() != b.len() {
        return false;
    }
    for i in 0..a.len()
        invariant
            a@.len() == b@.len(),
            forall|j: int| 0 <= j < i ==> spec_category_eq(a@[j], b@[j]),
    {
        if !category_eq(&a[i], &b[i]) {
            return false;
        }
    }
    true
}

/// The collapsed standard level map of a raw record.
pub open spec fn spec_norm_levels(raw: SongFromAPI) -> Option<LevelMap> {
    let m = LevelMap {
        basic: none_if_empty(raw.lev_bas),
        advanced: none_if_empty(raw.lev_adv),
        expert: none_if_empty(raw.lev_exp),
        master: none_if_empty(raw.lev_mas),
        remaster: none_if_empty(raw.lev_remas),
    };
    if spec_level_map_absent(m) {
        Option::None
    } else {
        Option::Some(m)
    }
}

/// The collapsed DX level map of a raw record.
pub open spec fn spec_norm_dx_levels(raw: SongFromAPI) -> Option<DXLevelMap> {
    let m = DXLevelMap {
        basic: none_if_empty(raw.dx_lev_bas),
        advanced: none_if_empty(raw.dx_lev_adv),
        expert: none_if_empty(raw.dx_lev_exp),
        master: none_if_empty(raw.dx_lev_mas),
        remaster: none_if_empty(raw.dx_lev_remas),
    };
    if spec_dx_level_map_absent(m) {
        Option::None
    } else {
        Option::Some(m)
    }
}

/// The collapsed utage annotation of a raw record: absent when every
/// field is empty.
pub open spec fn spec_norm_utage(raw: SongFromAPI) -> Option<Utage> {
    if raw.lev_utage@.len() == 0 && raw.kanji@.len() == 0 && raw.comment@.len() == 0 {
        Option::None
    } else {
        Option::Some(Utage { level: raw.lev_utage, kanji: raw.kanji, comment: raw.comment })
    }
}

/// The canonical song a well-formed raw record normalizes to.
pub open spec fn spec_normalized_song(raw: SongFromAPI) -> Song {
    Song {
        id: raw.sort,
        title: raw.title,
        title_reading: raw.title_kana,
        artist: raw.artist,
        image: raw.image_url,
        category: raw.catcode,
        version: raw.version,
        release: crate::maimai::deserializers::spec_release_value(raw.release@),
        is_new: raw.date is Some,
        is_locked: raw.key is Some,
        levels: spec_norm_levels(raw),
        dx_levels: spec_norm_dx_levels(raw),
        utage: spec_norm_utage(raw),
    }
}

impl Song {
    /// Normalize one raw record.  Fails exactly when the new-song or
    /// locked flag carries an unknown token, or the release date does not
    /// decode.
    pub fn from_api(raw: &SongFromAPI) -> (r: Result<Song, DecodeError>)
        ensures
            r is Ok <==> spec_raw_song_ok(*raw),
            r matches Ok(s) ==> s == spec_normalized_song(*raw),
            r matches Err(e) ==> !spec_raw_song_ok(*raw),
    {
        let release = match deserialize_date(raw.release.as_str()) {
            Ok(d) => d,
            Err(e) => {
                return Err(e);
            },
        };
        let is_new = match bool_from_option_string(&raw.date) {
            Ok(b) => b,
            Err(e) => {
                return Err(e);
            },
        };
        let is_locked = match bool_from_option_string(&raw.key) {
            Ok(b) => b,
            Err(e) => {
                return Err(e);
            },
        };
        let lm = LevelMap {
            basic: if raw.lev_bas.as_str().is_empty() {
                Option::None
            } else {
                Option::Some(raw.lev_bas.clone())
            },
            advanced: if raw.lev_adv.as_str().is_empty() {
                Option::None
            } else {
                Option::Some(raw.lev_adv.clone())
            },
            expert: if raw.lev_exp.as_str().is_empty() {
                Option::None
            } else {
                Option::Some(raw.lev_exp.clone())
            },
            master: if raw.lev_mas.as_str().is_empty() {
                Option::None
            } else {
                Option::Some(raw.lev_mas.clone())
            },
            remaster: if raw.lev_remas.as_str().is_empty() {
                Option::None
            } else {
                Option::Some(raw.lev_remas.clone())
            },
        };
        let levels = if lm.basic.is_none() && lm.advanced.is_none() && lm.expert.is_none()
            && lm.master.is_none() && lm.remaster.is_none() {
            Option::None
        } else {
            Option::Some(lm)
        };
        let dxm = DXLevelMap {
            basic: if raw.dx_lev_bas.as_str().is_empty() {
                Option::None
            } else {
                Option::Some(raw.dx_lev_bas.clone())
            },
            advanced: if raw.dx_lev_adv.as_str().is_empty() {
                Option::None
            } else {
                Option::Some(raw.dx_lev_adv.clone())
            },
            expert: if raw.dx_lev_exp.as_str().is_empty() {
                Option::None
            } else {
                Option::Some(raw.dx_lev_exp.clone())
            },
            master: if raw.dx_lev_mas.as_str().is_empty() {
                Option::None
            } else {
                Option::Some(raw.dx_lev_mas.clone())
            },
            remaster: if raw.dx_lev_remas.as_str().is_empty() {
                Option::None
            } else {
                Option::Some(raw.dx_lev_remas.clone())
            },
        };
        let dx_levels = if dxm.basic.is_none() && dxm.advanced.is_none() && dxm.expert.is_none()
            && dxm.master.is_none() && dxm.remaster.is_none() {
            Option::None
        } else {
            Option::Some(dxm)
        };
        let utage = if raw.lev_utage.as_str().is_empty() && raw.kanji.as_str().is_empty()
            && raw.comment.as_str().is_empty() {
            Option::None
        } else {
            Option::Some(
                Utage {
                    level: raw.lev_utage.clone(),
                    kanji: raw.kanji.clone(),
                    comment: raw.comment.clone(),
                },
            )
        };
        Ok(
            Song {
                id: raw.sort.clone(),
                title: raw.title.clone(),
                title_reading: raw.title_kana.clone(),
                artist: raw.artist.clone(),
                image: raw.image_url.clone(),
                category: raw.catcode.clone(),
                version: raw.version.clone(),
                release,
                is_new,
                is_locked,
                levels,
                dx_levels,
                utage,
            },
        )
    }
}

/// Every raw record in the sequence decodes.
pub open spec fn spec_raws_ok(raws: Seq<SongFromAPI>) -> bool {
    forall|i: int| 0 <= i < raws.len() ==> spec_raw_song_ok(#[trigger] raws[i])
}

/// Normalize a whole fetched song list; the first undecodable record is
/// the error for the whole source.
pub fn normalize_songs(raws: &Vec<SongFromAPI>) -> (r: Result<Vec<Song>, DecodeError>)
    ensures
        r is Ok <==> spec_raws_ok(raws@),
        r matches Ok(songs) ==> songs@.len() == raws@.len() && forall|i: int|
            0 <= i < raws@.len() ==> #[trigger] songs@[i] == spec_normalized_song(raws@[i]),
        r is Err ==> !spec_raws_ok(raws@),
{
    let mut songs: Vec<Song> = Vec::new();
    for i in 0..raws.len()
        invariant
            songs@.len() == i,
            forall|j: int| 0 <= j < i ==> spec_raw_song_ok(#[trigger] raws@[j]),
            forall|j: int|
                0 <= j < i ==> #[trigger] songs@[j] == spec_normalized_song(raws@[j]),
    {
        match Song::from_api(&raws[i]) {
            Ok(s) => songs.push(s),
            Err(e) => {
                return Err(e);
            },
        }
    }
    Ok(songs)
}

/// The persisted snapshot for one maimai source.
#[derive(Debug)]
pub struct DataStore {
    pub name: String,
    pub count: usize,
    pub last_updated: i64,
    pub songs: Vec<Song>,
    pub categories: Vec<Category>,
}

/// The derived count matches the song list.
pub open spec fn spec_store_wf(ds: DataStore) -> bool {
    ds.count == ds.songs@.len()
}

impl DataStore {
    /// Build a fresh snapshot from a fetched song list and the source's
    /// category taxonomy.  The timestamp is the wall clock and carries no
    /// promise.
    pub fn new(name: &str, songs: Vec<Song>, categories: Vec<Category>) -> (r: DataStore)
        ensures
            r.name@ == name@,
            r.count == songs@.len(),
            r.songs == songs,
            r.categories == categories,
            spec_store_wf(r),
    {
        let count = songs.len();
        DataStore {
            name: String::from_str(name),
            count,
            last_updated: current_timestamp(),
            songs,
            categories,
        }
    }
}

impl DataStoreTrait for DataStore {
    /// Content difference: derived count, song sequence, category sequence.
    /// The timestamp never participates.
    open spec fn spec_differs(&self, other: &Self) -> bool {
        self.count != other.count || !spec_songs_eq(self.songs@, other.songs@)
            || !spec_categories_eq(self.categories@, other.categories@)
    }

    fn data_differs(&self, other: &Self) -> (r: bool) {
        self.count != other.count || !songs_eq(&self.songs, &other.songs)
            || !categories_eq(&self.categories, &other.categories)
    }
}

/// A snapshot never differs from itself.
pub proof fn lemma_differs_reflexive(s: &DataStore)
    ensures
        !s.spec_differs(s),
{
}

/// Two snapshots with equal content never differ, whatever their
/// last-synchronized timestamps (and names) are.
pub proof fn lemma_differs_ignores_timestamp(a: &DataStore, b: &DataStore)
    requires
        a.count == b.count,
        spec_songs_eq(a.songs@, b.songs@),
        spec_categories_eq(a.categories@, b.categories@),
    ensures
        !a.spec_differs(b),
        !b.spec_differs(a),
{
}

/// Appending one song to an otherwise identical snapshot is a difference.
pub proof fn lemma_differs_detects_append(a: &DataStore, b: &DataStore, s: Song)
    requires
        spec_store_wf(*a),
        spec_store_wf(*b),
        b.songs@ == a.songs@.push(s),
    ensures
        a.spec_differs(b),
{
}

/// Reordering the songs is a difference whenever the reordered sequence is
/// not element-wise content-equal to the original.
pub proof fn lemma_differs_detects_reorder(a: &DataStore, b: &DataStore)
    requires
        b.songs@ == a.songs@.reverse(),
        !spec_songs_eq(a.songs@, b.songs@),
    ensures
        a.spec_differs(b),
{
}

} // verus!
