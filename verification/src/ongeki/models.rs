//! Canonical record types for the ONGEKI source, and the normalization of
//! its raw wire records.

use vstd::prelude::*;
use vstd::string::StringExecFns;

use crate::shared::clock::current_timestamp;
use crate::shared::dates::{spec_parsed_date, Date};
use crate::shared::deserializers::{bool_from_string, spec_bool_token_ok, spec_bool_token_value};
use crate::shared::errors::DecodeError;
use crate::shared::strutil::{none_if_empty, opt_str_eq, opt_string_eq};
use crate::shared::traits::DataStore as DataStoreTrait;

use super::deserializers::{deserialize_date, spec_date_ok};
use super::{get_all_categories, spec_all_categories};

verus! {

/// Difficulty labels per chart tier; an absent tier is `None`.
#[derive(Debug, PartialEq)]
pub struct LevelMap {
    pub basic: Option<String>,
    pub advanced: Option<String>,
    pub expert: Option<String>,
    pub master: Option<String>,
    pub lunatic: Option<String>,
}

/// The character a song belongs to, when the source lists one.
#[derive(Debug, PartialEq)]
pub struct Character {
    pub id: Option<String>,
    pub name: Option<String>,
}

/// The category reference carried inside a song record.
#[derive(Debug, PartialEq)]
pub struct CategoryInSong {
    pub id: String,
    pub name: String,
}

/// The story chapter a song belongs to, when the source lists one.
#[derive(Debug, PartialEq)]
pub struct Chapter {
    pub id: Option<String>,
    pub name: Option<String>,
}

/// Every tier of the level map is absent.
pub open spec fn spec_level_map_absent(m: LevelMap) -> bool {
    m.basic is None && m.advanced is None && m.expert is None && m.master is None
        && m.lunatic is None
}

/// Content equality of two level maps.
pub open spec fn spec_level_map_eq(a: LevelMap, b: LevelMap) -> bool {
    opt_str_eq(a.basic, b.basic) && opt_str_eq(a.advanced, b.advanced)
        && opt_str_eq(a.expert, b.expert) && opt_str_eq(a.master, b.master)
        && opt_str_eq(a.lunatic, b.lunatic)
}

pub fn level_map_eq(a: &LevelMap, b: &LevelMap) -> (r: bool)
    ensures
        r == spec_level_map_eq(*a, *b),
{
    opt_string_eq(&a.basic, &b.basic) && opt_string_eq(&a.advanced, &b.advanced)
        && opt_string_eq(&a.expert, &b.expert) && opt_string_eq(&a.master, &b.master)
        && opt_string_eq(&a.lunatic, &b.lunatic)
}

/// Content equality of two characters.
pub open spec fn spec_character_eq(a: Character, b: Character) -> bool {
    opt_str_eq(a.id, b.id) && opt_str_eq(a.name, b.name)
}

pub fn character_eq(a: &Character, b: &Character) -> (r: bool)
    ensures
        r == spec_character_eq(*a, *b),
{
    opt_string_eq(&a.id, &b.id) && opt_string_eq(&a.name, &b.name)
}

/// Content equality of two chapters.
pub open spec fn spec_chapter_eq(a: Chapter, b: Chapter) -> bool {
    opt_str_eq(a.id, b.id) && opt_str_eq(a.name, b.name)
}

pub fn chapter_eq(a: &Chapter, b: &Chapter) -> (r: bool)
    ensures
        r == spec_chapter_eq(*a, *b),
{
    opt_string_eq(&a.id, &b.id) && opt_string_eq(&a.name, &b.name)
}

/// Content equality of two in-song category references.
pub open spec fn spec_category_in_song_eq(a: CategoryInSong, b: CategoryInSong) -> bool {
    a.id@ == b.id@ && a.name@ == b.name@
}

pub fn category_in_song_eq(a: &CategoryInSong, b: &CategoryInSong) -> (r: bool)
    ensures
        r == spec_category_in_song_eq(*a, *b),
{
    a.id.eq(&b.id) && a.name.eq(&b.name)
}

/// One song as served by the remote JSON document, with every
/// sentinel-encoded field still in its raw form.  Field names follow the
/// wire schema.
#[derive(Debug)]
pub struct SongFromAPI {
    pub id: String,
    pub title: String,
    pub title_sort: String,
    pub artist: String,
    pub date: String,
    pub new: String,
    pub lunatic: String,
    pub bonus: String,
    pub image_url: String,
    pub copyright1: Option<String>,
    pub chap_id: String,
    pub chapter: String,
    pub category_id: String,
    pub category: String,
    pub chara_id: String,
    pub character: String,
    pub lev_bas: String,
    pub lev_adv: String,
    pub lev_exp: String,
    pub lev_mas: String,
    pub lev_lnt: String,
}

/// The canonical, storage-ready song record.
#[derive(Debug, PartialEq)]
pub struct Song {
    pub id: String,
    pub title: String,
    pub title_reading: String,
    pub artist: String,
    pub date: Date,
    pub image: String,
    pub is_new: bool,
    pub is_lunatic: bool,
    pub is_bonus_track: bool,
    pub copyright: Option<String>,
    pub chapter: Option<Chapter>,
    pub category: CategoryInSong,
    pub levels: Option<LevelMap>,
    pub character: Option<Character>,
}

/// Content equality of two canonical songs.
pub open spec fn spec_song_eq(a: Song, b: Song) -> bool {
    a.id@ == b.id@ && a.title@ == b.title@ && a.title_reading@ == b.title_reading@
        && a.artist@ == b.artist@ && a.date == b.date && a.image@ == b.image@ && a.is_new
        == b.is_new && a.is_lunatic == b.is_lunatic && a.is_bonus_track == b.is_bonus_track
        && opt_str_eq(a.copyright, b.copyright) && spec_category_in_song_eq(a.category, b.category)
        && match (a.chapter, b.chapter) {
            (Option::None, Option::None) => true,
            (Option::Some(x), Option::Some(y)) => spec_chapter_eq(x, y),
            _ => false,
        }
        && match (a.levels, b.levels) {
            (Option::None, Option::None) => true,
            (Option::Some(x), Option::Some(y)) => spec_level_map_eq(x, y),
            _ => false,
        }
        && match (a.character, b.character) {
            (Option::None, Option::None) => true,
            (Option::Some(x), Option::Some(y)) => spec_character_eq(x, y),
            _ => false,
        }
}

pub fn song_eq(a: &Song, b: &Song) -> (r: bool)
    ensures
        r == spec_song_eq(*a, *b),
{
    a.id.eq(&b.id) && a.title.eq(&b.title) && a.title_reading.eq(&b.title_reading)
        && a.artist.eq(&b.artist) && a.date == b.date && a.image.eq(&b.image) && a.is_new
        == b.is_new && a.is_lunatic == b.is_lunatic && a.is_bonus_track == b.is_bonus_track
        && opt_string_eq(&a.copyright, &b.copyright) && category_in_song_eq(
        &a.category,
        &b.category,
    )
        && match (&a.chapter, &b.chapter) {
            (Option::None, Option::None) => true,
            (Option::Some(x), Option::Some(y)) => chapter_eq(x, y),
            _ => false,
        }
        && match (&a.levels, &b.levels) {
            (Option::None, Option::None) => true,
            (Option::Some(x), Option::Some(y)) => level_map_eq(x, y),
            _ => false,
        }
        && match (&a.character, &b.character) {
            (Option::None, Option::None) => true,
            (Option::Some(x), Option::Some(y)) => character_eq(x, y),
            _ => false,
        }
}

/// Element-wise content equality of two song sequences.
pub open spec fn spec_songs_eq(a: Seq<Song>, b: Seq<Song>) -> bool {
    a.len() == b.len() && forall|i: int| 0 <= i < a.len() ==> spec_song_eq(a[i], b[i])
}

pub fn songs_eq(a: &Vec<Song>, b: &Vec<Song>) -> (r: bool)
    ensures
        r == spec_songs_eq(a@, b@),
{
    if a.len() != b.len() {
        return false;
    }
    for i in 0..a.len()
        invariant
            a@.len() == b@.len(),
            forall|j: int| 0 <= j < i ==> spec_song_eq(a@[j], b@[j]),
    {
        if !song_eq(&a[i], &b[i]) {
            return false;
        }
    }
    true
}

/// A taxonomy entry: a numeric identifier, a stable slug, and a display
/// name.
#[derive(Debug, PartialEq)]
pub struct Category {
    pub id: String,
    pub slug: String,
    pub name: String,
}

/// Every sentinel-encoded field of the raw record decodes.
pub open spec fn spec_raw_song_ok(raw: SongFromAPI) -> bool {
    spec_date_ok(raw.date@) && spec_bool_token_ok(raw.new@) && spec_bool_token_ok(raw.lunatic@)
        && spec_bool_token_ok(raw.bonus@)
}

/// The collapsed level map of a raw record.
pub open spec fn spec_norm_levels(raw: SongFromAPI) -> Option<LevelMap> {
    let m = LevelMap {
        basic: none_if_empty(raw.lev_bas),
        advanced: none_if_empty(raw.lev_adv),
        expert: none_if_empty(raw.lev_exp),
        master: none_if_empty(raw.lev_mas),
        lunatic: none_if_empty(raw.lev_lnt),
    };
    if spec_level_map_absent(m) {
        Option::None
    } else {
        Option::Some(m)
    }
}

/// The collapsed chapter of a raw record: absent when both fields are
/// empty.
pub open spec fn spec_norm_chapter(raw: SongFromAPI) -> Option<Chapter> {
    if raw.chap_id@.len() == 0 && raw.chapter@.len() == 0 {
        Option::None
    } else {
        Option::Some(
            Chapter { id: none_if_empty(raw.chap_id), name: none_if_empty(raw.chapter) },
        )
    }
}

/// The collapsed character of a raw record: absent when both fields are
/// empty.
pub open spec fn spec_norm_character(raw: SongFromAPI) -> Option<Character> {
    if raw.chara_id@.len() == 0 && raw.character@.len() == 0 {
        Option::None
    } else {
        Option::Some(
            Character { id: none_if_empty(raw.chara_id), name: none_if_empty(raw.character) },
        )
    }
}

/// The copyright of a raw record: absent when missing or a lone dash.
pub open spec fn spec_norm_copyright(raw: SongFromAPI) -> Option<String> {
    match raw.copyright1 {
        Option::None => Option::None,
        Option::Some(x) => if x@ == "-"@ {
            Option::None
        } else {
            Option::Some(x)
        },
    }
}

/// The canonical song a well-formed raw record normalizes to.
pub open spec fn spec_normalized_song(raw: SongFromAPI) -> Song {
    Song {
        id: raw.id,
        title: raw.title,
        title_reading: raw.title_sort,
        artist: raw.artist,
        date: spec_parsed_date("%Y%m%d"@, raw.date@).unwrap(),
        image: raw.image_url,
        is_new: spec_bool_token_value(raw.new@),
        is_lunatic: spec_bool_token_value(raw.lunatic@),
        is_bonus_track: spec_bool_token_value(raw.bonus@),
        copyright: spec_norm_copyright(raw),
        chapter: spec_norm_chapter(raw),
        category: CategoryInSong { id: raw.category_id, name: raw.category },
        levels: spec_norm_levels(raw),
        character: spec_norm_character(raw),
    }
}

impl Song {
    /// Normalize one raw record.  Fails exactly when the date does not
    /// decode or one of the three flags carries an unknown token.
    pub fn from_api(raw: &SongFromAPI) -> (r: Result<Song, DecodeError>)
        ensures
            r is Ok <==> spec_raw_song_ok(*raw),
            r matches Ok(s) ==> s == spec_normalized_song(*raw),
            r is Err ==> !spec_raw_song_ok(*raw),
    {
        let date = match deserialize_date(raw.date.as_str()) {
            Ok(d) => d,
            Err(e) => {
                return Err(e);
            },
        };
        let is_new = match bool_from_string(raw.new.as_str()) {
            Ok(b) => b,
            Err(e) => {
                return Err(e);
            },
        };
        let is_lunatic = match bool_from_string(raw.lunatic.as_str()) {
            Ok(b) => b,
            Err(e) => {
                return Err(e);
            },
        };
        let is_bonus_track = match bool_from_string(raw.bonus.as_str()) {
            Ok(b) => b,
            Err(e) => {
                return Err(e);
            },
        };
        let copyright = match &raw.copyright1 {
            Option::None => Option::None,
            Option::Some(x) => {
                if crate::shared::strutil::str_eq(x.as_str(), "-") {
                    Option::None
                } else {
                    Option::Some(x.clone())
                }
            },
        };
        let chapter = if raw.chap_id.as_str().is_empty() && raw.chapter.as_str().is_empty() {
            Option::None
        } else {
            Option::Some(
                Chapter {
                    id: if raw.chap_id.as_str().is_empty() {
                        Option::None
                    } else {
                        Option::Some(raw.chap_id.clone())
                    },
                    name: if raw.chapter.as_str().is_empty() {
                        Option::None
                    } else {
                        Option::Some(raw.chapter.clone())
                    },
                },
            )
        };
        let character = if raw.chara_id.as_str().is_empty() && raw.character.as_str().is_empty() {
            Option::None
        } else {
            Option::Some(
                Character {
                    id: if raw.chara_id.as_str().is_empty() {
                        Option::None
                    } else {
                        Option::Some(raw.chara_id.clone())
                    },
                    name: if raw.character.as_str().is_empty() {
                        Option::None
                    } else {
                        Option::Some(raw.character.clone())
                    },
                },
            )
        };
        let lm = LevelMap {
            basic: if raw.lev_bas.as_str().is_empty() {
                Option::None
            } else {
                Option::Some(raw.lev_bas.clone())
            },
            advanced: if raw.lev_adv.as_str().is_empty() {
                Option::None
            } else {
                Option::Some(raw.lev_adv.clone())
            },
            expert: if raw.lev_exp.as_str().is_empty() {
                Option::None
            } else {
                Option::Some(raw.lev_exp.clone())
            },
            master: if raw.lev_mas.as_str().is_empty() {
                Option::None
            } else {
                Option::Some(raw.lev_mas.clone())
            },
            lunatic: if raw.lev_lnt.as_str().is_empty() {
                Option::None
            } else {
                Option::Some(raw.lev_lnt.clone())
            },
        };
        let levels = if lm.basic.is_none() && lm.advanced.is_none() && lm.expert.is_none()
            && lm.master.is_none() && lm.lunatic.is_none() {
            Option::None
        } else {
            Option::Some(lm)
        };
        Ok(
            Song {
                id: raw.id.clone(),
                title: raw.title.clone(),
                title_reading: raw.title_sort.clone(),
                artist: raw.artist.clone(),
                date,
                image: raw.image_url.clone(),
                is_new,
                is_lunatic,
                is_bonus_track,
                copyright,
                chapter,
                category: CategoryInSong {
                    id: raw.category_id.clone(),
                    name: raw.category.clone(),
                },
                levels,
                character,
            },
        )
    }
}

/// Every raw record in the sequence decodes.
pub open spec fn spec_raws_ok(raws: Seq<SongFromAPI>) -> bool {
    forall|i: int| 0 <= i < raws.len() ==> spec_raw_song_ok(#[trigger] raws[i])
}

/// Normalize a whole fetched song list; the first undecodable record is
/// the error for the whole source.
pub fn normalize_songs(raws: &Vec<SongFromAPI>) -> (r: Result<Vec<Song>, DecodeError>)
    ensures
        r is Ok <==> spec_raws_ok(raws@),
        r matches Ok(songs) ==> songs@.len() == raws@.len() && forall|i: int|
            0 <= i < raws@.len() ==> #[trigger] songs@[i] == spec_normalized_song(raws@[i]),
        r is Err ==> !spec_raws_ok(raws@),
{
    let mut songs: Vec<Song> = Vec::new();
    for i in 0..raws.len()
        invariant
            songs@.len() == i,
            forall|j: int| 0 <= j < i ==> spec_raw_song_ok(#[trigger] raws@[j]),
            forall|j: int|
                0 <= j < i ==> #[trigger] songs@[j] == spec_normalized_song(raws@[j]),
    {
        match Song::from_api(&raws[i]) {
            Ok(s) => songs.push(s),
            Err(e) => {
                return Err(e);
            },
        }
    }
    Ok(songs)
}

/// The persisted snapshot for the ONGEKI source.
#[derive(Debug)]
pub struct DataStore {
    pub name: String,
    pub count: usize,
    pub last_updated: i64,
    pub songs: Vec<Song>,
    pub categories: Vec<Category>,
}

/// The derived count matches the song list.
pub open spec fn spec_store_wf(ds: DataStore) -> bool {
    ds.count == ds.songs@.len()
}

impl DataStore {
    /// Build a fresh snapshot from a fetched song list.  The category
    /// list is the fixed taxonomy; the timestamp is the wall clock and
    /// carries no promise.
    pub fn new(name: &str, songs: Vec<Song>) -> (r: DataStore)
        ensures
            r.name@ == name@,
            r.count == songs@.len(),
            r.songs == songs,
            spec_all_categories(r.categories@),
            spec_store_wf(r),
    {
        let count = songs.len();
        DataStore {
            name: String::from_str(name),
            count,
            last_updated: current_timestamp(),
            songs,
            categories: get_all_categories(),
        }
    }
}

impl DataStoreTrait for DataStore {
    /// Content difference: derived count and song sequence.  For this
    /// source the fixed category list does not participate, and the
    /// timestamp never does.
    open spec fn spec_differs(&self, other: &Self) -> bool {
        self.count != other.count || !spec_songs_eq(self.songs@, other.songs@)
    }

    fn data_differs(&self, other: &Self) -> (r: bool) {
        self.count != other.count || !songs_eq(&self.songs, &other.songs)
    }
}

/// A snapshot never differs from itself.
pub proof fn lemma_differs_reflexive(s: &DataStore)
    ensures
        !s.spec_differs(s),
{
}

/// Two snapshots with equal content never differ, whatever their
/// last-synchronized timestamps (and names) are.
pub proof fn lemma_differs_ignores_timestamp(a: &DataStore, b: &DataStore)
    requires
        a.count == b.count,
        spec_songs_eq(a.songs@, b.songs@),
    ensures
        !a.spec_differs(b),
        !b.spec_differs(a),
{
}

/// Appending one song to an otherwise identical snapshot is a difference.
pub proof fn lemma_differs_detects_append(a: &DataStore, b: &DataStore, s: Song)
    requires
        spec_store_wf(*a),
        spec_store_wf(*b),
        b.songs@ == a.songs@.push(s),
    ensures
        a.spec_differs(b),
{
}

/// Reordering the songs is a difference whenever the reordered sequence is
/// not element-wise content-equal to the original.
pub proof fn lemma_differs_detects_reorder(a: &DataStore, b: &DataStore)
    requires
        b.songs@ == a.songs@.reverse(),
        !spec_songs_eq(a.songs@, b.songs@),
    ensures
        a.spec_differs(b),
{
}

} // verus!
