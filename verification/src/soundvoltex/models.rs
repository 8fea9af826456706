//! Canonical record types for the SOUND VOLTEX source.

use vstd::prelude::*;
use vstd::string::StringExecFns;

use crate::shared::clock::current_timestamp;
use crate::shared::strutil::{opt_str_eq, opt_string_eq};
use crate::shared::traits::DataStore as DataStoreTrait;

use super::{get_all_categories, spec_all_categories};

verus! {

/// Difficulty labels per chart tier; an absent tier is `None`.
#[derive(Debug, PartialEq)]
pub struct LevelMap {
    pub novice: Option<String>,
    pub advanced: Option<String>,
    pub exhaust: Option<String>,
    pub maximum: Option<String>,
    pub infinite: Option<String>,
    pub gravity: Option<String>,
    pub heavenly: Option<String>,
    pub vivid: Option<String>,
    pub exceed: Option<String>,
}

/// Content equality of two level maps.
pub open spec fn spec_level_map_eq(a: LevelMap, b: LevelMap) -> bool {
    opt_str_eq(a.novice, b.novice) && opt_str_eq(a.advanced, b.advanced)
        && opt_str_eq(a.exhaust, b.exhaust) && opt_str_eq(a.maximum, b.maximum)
        && opt_str_eq(a.infinite, b.infinite) && opt_str_eq(a.gravity, b.gravity)
        && opt_str_eq(a.heavenly, b.heavenly) && opt_str_eq(a.vivid, b.vivid)
        && opt_str_eq(a.exceed, b.exceed)
}

pub fn level_map_eq(a: &LevelMap, b: &LevelMap) -> (r: bool)
    ensures
        r == spec_level_map_eq(*a, *b),
{
    opt_string_eq(&a.novice, &b.novice) && opt_string_eq(&a.advanced, &b.advanced)
        && opt_string_eq(&a.exhaust, &b.exhaust) && opt_string_eq(&a.maximum, &b.maximum)
        && opt_string_eq(&a.infinite, &b.infinite) && opt_string_eq(&a.gravity, &b.gravity)
        && opt_string_eq(&a.heavenly, &b.heavenly) && opt_string_eq(&a.vivid, &b.vivid)
        && opt_string_eq(&a.exceed, &b.exceed)
}

/// A taxonomy entry: a stable identifier and a display name.
#[derive(Debug, PartialEq)]
pub struct Category {
    pub id: String,
    pub name: String,
}

/// Content equality of two categories.
pub open spec fn spec_category_eq(a: Category, b: Category) -> bool {
    a.id@ == b.id@ && a.name@ == b.name@
}

pub fn category_eq(a: &Category, b: &Category) -> (r: bool)
    ensures
        r == spec_category_eq(*a, *b),
{
    a.id.eq(&b.id) && a.name.eq(&b.name)
}

/// Element-wise content equality of two category sequences.
pub open spec fn spec_categories_eq(a: Seq<Category>, b: Seq<Category>) -> bool {
    a.len() == b.len() && forall|i: int| 0 <= i < a.len() ==> spec_category_eq(a[i], b[i])
}

pub fn categories_eq(a: &Vec<Category>, b: &Vec<Category>) -> (r: bool)
    ensures
        r == spec_categories_eq(a@, b@),
{
    if a.len() != b.len() {
        return false;
    }
    for i in 0..a.len()
        invariant
            a@.len() == b@.len(),
            forall|j: int| 0 <= j < i ==> spec_category_eq(a@[j], b@[j]),
    {
        if !category_eq(&a[i], &b[i]) {
            return false;
        }
    }
    true
}

/// The canonical, storage-ready song record.  A SOUND VOLTEX song may
/// belong to several categories at once.
#[derive(Debug, PartialEq)]
pub struct Song {
    pub image: String,
    pub title: String,
    pub artist: String,
    pub categories: Vec<Category>,
    pub levels: LevelMap,
}

/// Content equality of two canonical songs.
pub open spec fn spec_song_eq(a: Song, b: Song) -> bool {
    a.image@ == b.image@ && a.title@ == b.title@ && a.artist@ == b.artist@
        && spec_categories_eq(a.categories@, b.categories@) && spec_level_map_eq(
        a.levels,
        b.levels,
    )
}

pub fn song_eq(a: &Song, b: &Song) -> (r: bool)
    ensures
        r == spec_song_eq(*a, *b),
{
    a.image.eq(&b.image) && a.title.eq(&b.title) && a.artist.eq(&b.artist)
        && categories_eq(&a.categories, &b.categories) && level_map_eq(&a.levels, &b.levels)
}

/// Element-wise content equality of two song sequences.
pub open spec fn spec_songs_eq(a: Seq<Song>, b: Seq<Song>) -> bool {
    a.len() == b.len() && forall|i: int| 0 <= i < a.len() ==> spec_song_eq(a[i], b[i])
}

pub fn songs_eq(a: &Vec<Song>, b: &Vec<Song>) -> (r: bool)
    ensures
        r == spec_songs_eq(a@, b@),
{
    if a.len() != b.len() {
        return false;
    }
    for i in 0..a.len()
        invariant
            a@.len() == b@.len(),
            forall|j: int| 0 <= j < i ==> spec_song_eq(a@[j], b@[j]),
    {
        if !song_eq(&a[i], &b[i]) {
            return false;
        }
    }
    true
}

/// The persisted snapshot for the SOUND VOLTEX source.
#[derive(Debug)]
pub struct DataStore {
    pub name: String,
    pub count: usize,
    pub last_updated: i64,
    pub songs: Vec<Song>,
    pub categories: Vec<Category>,
}

/// The derived count matches the song list.
pub open spec fn spec_store_wf(ds: DataStore) -> bool {
    ds.count == ds.songs@.len()
}

impl DataStore {
    /// Build a fresh snapshot from a fetched song list.  The category list
    /// is the fixed taxonomy; the timestamp is the wall clock and carries
    /// no promise.
    pub fn new(name: &str, songs: Vec<Song>) -> (r: DataStore)
        ensures
            r.name@ == name@,
            r.count == songs@.len(),
            r.songs == songs,
            spec_all_categories(r.categories@),
            spec_store_wf(r),
    {
        let count = songs.len();
        DataStore {
            name: String::from_str(name),
            count,
            last_updated: current_timestamp(),
            songs,
            categories: get_all_categories(),
        }
    }
}

impl DataStoreTrait for DataStore {
    /// Content difference: derived count, song sequence, category sequence.
    /// The timestamp never participates.
    open spec fn spec_differs(&self, other: &Self) -> bool {
        self.count != other.count || !spec_songs_eq(self.songs@, other.songs@)
            || !spec_categories_eq(self.categories@, other.categories@)
    }

    fn data_differs(&self, other: &Self) -> (r: bool) {
        self.count != other.count || !songs_eq(&self.songs, &other.songs)
            || !categories_eq(&self.categories, &other.categories)
    }
}

/// A snapshot never differs from itself.
pub proof fn lemma_differs_reflexive(s: &DataStore)
    ensures
        !s.spec_differs(s),
{
}

/// Two snapshots with equal content never differ, whatever their
/// last-synchronized timestamps (and names) are.
pub proof fn lemma_differs_ignores_timestamp(a: &DataStore, b: &DataStore)
    requires
        a.count == b.count,
        spec_songs_eq(a.songs@, b.songs@),
        spec_categories_eq(a.categories@, b.categories@),
    ensures
        !a.spec_differs(b),
        !b.spec_differs(a),
{
}

/// Appending one song to an otherwise identical snapshot is a difference.
pub proof fn lemma_differs_detects_append(a: &DataStore, b: &DataStore, s: Song)
    requires
        spec_store_wf(*a),
        spec_store_wf(*b),
        b.songs@ == a.songs@.push(s),
    ensures
        a.spec_differs(b),
{
}

/// Reordering the songs is a difference whenever the reordered sequence is
/// not element-wise content-equal to the original.
pub proof fn lemma_differs_detects_reorder(a: &DataStore, b: &DataStore)
    requires
        b.songs@ == a.songs@.reverse(),
        !spec_songs_eq(a.songs@, b.songs@),
    ensures
        a.spec_differs(b),
{
}

} // verus!
