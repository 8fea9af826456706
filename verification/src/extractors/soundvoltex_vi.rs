//! The paginated SOUND VOLTEX extractor.
//!
//! The remote song index is served as numbered result pages.  Pages are
//! fetched concurrently and may finish in any order; this module turns
//! each page's scraped entries into canonical songs and reassembles the
//! pages by page index, so the final song sequence is exactly what
//! strictly sequential in-order fetching would have produced.

use vstd::prelude::*;
use vstd::seq_lib::group_to_multiset_ensures;
use vstd::string::StringExecFns;

use crate::shared::errors::DecodeError;
use crate::shared::numbers::{parse_usize, spec_all_digits, spec_decimal_value};
use crate::shared::strutil::str_eq;
use crate::soundvoltex::models::{Category, LevelMap, Song};

verus! {

/// One category tag scraped from a song entry.
#[derive(Debug, PartialEq)]
pub struct RawGenre {
    pub id: String,
    pub name: String,
}

/// One difficulty cell scraped from a song entry: the tier label and the
/// displayed level.
#[derive(Debug, PartialEq)]
pub struct RawLevel {
    pub kind: String,
    pub value: String,
}

/// One song entry scraped from a result page, reduced to plain text.
#[derive(Debug)]
pub struct MusicEntry {
    pub image: String,
    pub title: String,
    pub artist: String,
    pub genres: Vec<RawGenre>,
    pub levels: Vec<RawLevel>,
}

/// One result page's extracted songs, tagged with its page index.
#[derive(Debug, PartialEq)]
pub struct FetchedPage {
    pub page_num: usize,
    pub songs: Vec<Song>,
}

/// The level map with every tier absent.
pub open spec fn spec_empty_levels() -> LevelMap {
    LevelMap {
        novice: Option::None,
        advanced: Option::None,
        exhaust: Option::None,
        maximum: Option::None,
        infinite: Option::None,
        gravity: Option::None,
        heavenly: Option::None,
        vivid: Option::None,
        exceed: Option::None,
    }
}

/// The tier labels the page markup uses.
pub open spec fn spec_level_kind_known(k: Seq<char>) -> bool {
    k == "nov"@ || k == "adv"@ || k == "exh"@ || k == "mxm"@ || k == "inf"@ || k == "grv"@
        || k == "hvn"@ || k == "vvd"@ || k == "xcd"@
}

/// `m` with the tier labelled `k` set to `v`.
pub open spec fn spec_set_level(m: LevelMap, k: Seq<char>, v: String) -> LevelMap {
    if k == "nov"@ {
        LevelMap { novice: Option::Some(v), ..m }
    } else if k == "adv"@ {
        LevelMap { advanced: Option::Some(v), ..m }
    } else if k == "exh"@ {
        LevelMap { exhaust: Option::Some(v), ..m }
    } else if k == "mxm"@ {
        LevelMap { maximum: Option::Some(v), ..m }
    } else if k == "inf"@ {
        LevelMap { infinite: Option::Some(v), ..m }
    } else if k == "grv"@ {
        LevelMap { gravity: Option::Some(v), ..m }
    } else if k == "hvn"@ {
        LevelMap { heavenly: Option::Some(v), ..m }
    } else if k == "vvd"@ {
        LevelMap { vivid: Option::Some(v), ..m }
    } else {
        LevelMap { exceed: Option::Some(v), ..m }
    }
}

/// The level cells applied to `m` in order; a later duplicate label wins.
/// An unknown label fails the whole entry.
pub open spec fn spec_apply_levels(m: LevelMap, cells: Seq<RawLevel>) -> Option<LevelMap>
    decreases cells.len(),
{
    if cells.len() == 0 {
        Option::Some(m)
    } else {
        match spec_apply_levels(m, cells.drop_last()) {
            Option::None => Option::None,
            Option::Some(acc) => if spec_level_kind_known(cells.last().kind@) {
                Option::Some(spec_set_level(acc, cells.last().kind@, cells.last().value))
            } else {
                Option::None
            },
        }
    }
}

/// Once a prefix of the cells has failed, the whole sequence fails.
proof fn lemma_apply_levels_none_from(m: LevelMap, cells: Seq<RawLevel>, j: int)
    requires
        0 <= j <= cells.len(),
        spec_apply_levels(m, cells.take(j)) is None,
    ensures
        spec_apply_levels(m, cells) is None,
    decreases cells.len() - j,
{
    if j == cells.len() {
        assert(cells.take(j) =~= cells);
    } else {
        assert(cells.take(j + 1).drop_last() =~= cells.take(j));
        lemma_apply_levels_none_from(m, cells, j + 1);
    }
}

/// Fold an entry's level cells into a level map.
pub fn apply_levels(cells: &Vec<RawLevel>) -> (r: Result<LevelMap, DecodeError>)
    ensures
        r is Ok <==> spec_apply_levels(spec_empty_levels(), cells@) is Some,
        r matches Ok(m) ==> Option::Some(m) == spec_apply_levels(spec_empty_levels(), cells@),
        r matches Err(e) ==> (e matches DecodeError::UnknownLevelKind(t) && exists|i: int|
            0 <= i < cells@.len() && !spec_level_kind_known((#[trigger] cells@[i]).kind@)
                && t@ == cells@[i].kind@),
{
    let mut m = LevelMap {
        novice: Option::None,
        advanced: Option::None,
        exhaust: Option::None,
        maximum: Option::None,
        infinite: Option::None,
        gravity: Option::None,
        heavenly: Option::None,
        vivid: Option::None,
        exceed: Option::None,
    };
    for i in 0..cells.len()
        invariant
            Option::Some(m) == spec_apply_levels(spec_empty_levels(), cells@.take(i as int)),
    {
        let k = cells[i].kind.as_str();
        let v = cells[i].value.clone();
        if str_eq(k, "nov") {
            m.novice = Option::Some(v);
        } else if str_eq(k, "adv") {
            m.advanced = Option::Some(v);
        } else if str_eq(k, "exh") {
            m.exhaust = Option::Some(v);
        } else if str_eq(k, "mxm") {
            m.maximum = Option::Some(v);
        } else if str_eq(k, "inf") {
            m.infinite = Option::Some(v);
        } else if str_eq(k, "grv") {
            m.gravity = Option::Some(v);
        } else if str_eq(k, "hvn") {
            m.heavenly = Option::Some(v);
        } else if str_eq(k, "vvd") {
            m.vivid = Option::Some(v);
        } else if str_eq(k, "xcd") {
            m.exceed = Option::Some(v);
        } else {
            proof {
                assert(cells@.take(i + 1).drop_last() =~= cells@.take(i as int));
                assert(cells@.take(i + 1).last() == cells@[i as int]);
                assert(spec_apply_levels(spec_empty_levels(), cells@.take(i + 1)) is None);
                lemma_apply_levels_none_from(spec_empty_levels(), cells@, i + 1);
            }
            return Err(DecodeError::UnknownLevelKind(cells[i].kind.clone()));
        }
        proof {
            assert(cells@.take(i + 1).drop_last() =~= cells@.take(i as int));
            assert(cells@.take(i + 1).last() == cells@[i as int]);
        }
    }
    proof {
        assert(cells@.take(cells@.len() as int) =~= cells@);
    }
    Ok(m)
}

/// The categories an entry's genre tags stand for, in page order.
pub open spec fn spec_entry_categories(genres: Seq<RawGenre>) -> Seq<Category> {
    genres.map_values(|g: RawGenre| Category { id: g.id, name: g.name })
}

/// The entry's level cells all carry known tier labels.
pub open spec fn spec_entry_ok(e: MusicEntry) -> bool {
    spec_apply_levels(spec_empty_levels(), e.levels@) is Some
}

/// `s` is the canonical song of entry `e`.
pub open spec fn spec_song_matches_entry(s: Song, e: MusicEntry) -> bool {
    s.image == e.image && s.title == e.title && s.artist == e.artist && s.categories@
        == spec_entry_categories(e.genres@) && Option::Some(s.levels) == spec_apply_levels(
        spec_empty_levels(),
        e.levels@,
    )
}

/// Build the canonical song of one scraped entry.
pub fn song_from_entry(e: &MusicEntry) -> (r: Result<Song, DecodeError>)
    ensures
        r is Ok <==> spec_entry_ok(*e),
        r matches Ok(s) ==> spec_song_matches_entry(s, *e),
        r matches Err(err) ==> err matches DecodeError::UnknownLevelKind(t),
{
    let levels = match apply_levels(&e.levels) {
        Ok(m) => m,
        Err(err) => {
            return Err(err);
        },
    };
    let mut cats: Vec<Category> = Vec::new();
    for i in 0..e.genres.len()
        invariant
            cats@.len() == i,
            forall|j: int|
                0 <= j < i ==> #[trigger] cats@[j] == (Category {
                    id: e.genres@[j].id,
                    name: e.genres@[j].name,
                }),
    {
        cats.push(Category { id: e.genres[i].id.clone(), name: e.genres[i].name.clone() });
    }
    proof {
        assert(cats@ =~= spec_entry_categories(e.genres@));
    }
    Ok(
        Song {
            image: e.image.clone(),
            title: e.title.clone(),
            artist: e.artist.clone(),
            categories: cats,
            levels,
        },
    )
}

/// Every entry of the page carries only known tier labels.
pub open spec fn spec_page_ok(entries: Seq<MusicEntry>) -> bool {
    forall|i: int| 0 <= i < entries.len() ==> spec_entry_ok(#[trigger] entries[i])
}

/// `songs` are the canonical songs of `entries`, in page order.
pub open spec fn spec_page_songs_match(entries: Seq<MusicEntry>, songs: Seq<Song>) -> bool {
    songs.len() == entries.len() && forall|i: int|
        0 <= i < entries.len() ==> spec_song_matches_entry(#[trigger] songs[i], entries[i])
}

/// Every page-selector option is a parseable page number.
pub open spec fn spec_page_options_ok(opts: Seq<String>) -> bool {
    forall|i: int|
        0 <= i < opts.len() ==> ((#[trigger] opts[i])@.len() > 0 && spec_all_digits(opts[i]@)
            && spec_decimal_value(opts[i]@) <= usize::MAX)
}

/// The largest page number among the options; zero when there are none.
pub open spec fn spec_max_page(opts: Seq<String>) -> int
    decreases opts.len(),
{
    if opts.len() == 0 {
        0
    } else {
        let rest = spec_max_page(opts.drop_last());
        let v = spec_decimal_value(opts.last()@);
        if v > rest {
            v
        } else {
            rest
        }
    }
}

/// Pages in ascending page-number order.
pub open spec fn spec_pages_sorted(s: Seq<FetchedPage>) -> bool {
    forall|i: int, j: int|
        0 <= i < j < s.len() ==> (#[trigger] s[i]).page_num <= (#[trigger] s[j]).page_num
}

/// No two pages share a page number.
pub open spec fn spec_distinct_page_nums(s: Seq<FetchedPage>) -> bool {
    forall|i: int, j: int|
        0 <= i < j < s.len() ==> (#[trigger] s[i]).page_num != (#[trigger] s[j]).page_num
}

/// `p` inserted in front of the first page that does not precede it.
pub open spec fn spec_insert_page(s: Seq<FetchedPage>, p: FetchedPage) -> Seq<FetchedPage>
    decreases s.len(),
{
    if s.len() == 0 {
        seq![p]
    } else if p.page_num <= s[0].page_num {
        seq![p] + s
    } else {
        seq![s[0]] + spec_insert_page(s.drop_first(), p)
    }
}

/// The pages in ascending page-number order.
pub open spec fn spec_sort_pages(s: Seq<FetchedPage>) -> Seq<FetchedPage>
    decreases s.len(),
{
    if s.len() == 0 {
        Seq::empty()
    } else {
        spec_insert_page(spec_sort_pages(s.drop_last()), s.last())
    }
}

/// The canonical song sequence of a set of fetched pages: the pages in
/// page-index order, their songs concatenated.  This is exactly the
/// sequence strictly sequential in-order fetching would produce.
pub open spec fn spec_assembled_songs(pages: Seq<FetchedPage>) -> Seq<Song> {
    spec_flatten_pages(spec_sort_pages(pages))
}

/// The pages' songs concatenated in the order given.
pub open spec fn spec_flatten_pages(s: Seq<FetchedPage>) -> Seq<Song>
    decreases s.len(),
{
    if s.len() == 0 {
        Seq::empty()
    } else {
        spec_flatten_pages(s.drop_last()) + s.last().songs@
    }
}

proof fn lemma_insert_page_ensures(s: Seq<FetchedPage>, p: FetchedPage)
    requires
        spec_pages_sorted(s),
    ensures
        spec_pages_sorted(spec_insert_page(s, p)),
        spec_insert_page(s, p).to_multiset() == s.to_multiset().insert(p),
        spec_insert_page(s, p).len() == s.len() + 1,
        forall|x: FetchedPage|
            #[trigger] spec_insert_page(s, p).contains(x) <==> (s.contains(x) || x == p),
    decreases s.len(),
{
    broadcast use group_to_multiset_ensures;
    broadcast use vstd::multiset::group_multiset_axioms;

    let r = spec_insert_page(s, p);
    if s.len() == 0 {
        assert(r =~= Seq::<FetchedPage>::empty().push(p));
        assert(r.to_multiset() =~= s.to_multiset().insert(p));
        assert forall|x: FetchedPage| #[trigger] r.contains(x) implies (s.contains(x) || x
            == p) by {
            let k = choose|k: int| 0 <= k < r.len() && r[k] == x;
        }
        assert(r[0] == p);
    } else if p.page_num <= s[0].page_num {
        assert(r == seq![p] + s);
        assert(r =~= s.insert(0, p));
        assert(r =~= (seq![p] + s.take(0)) + s.skip(0));
        vstd::seq_lib::lemma_multiset_commutative(seq![p], s);
        assert(seq![p].to_multiset() =~= Seq::<FetchedPage>::empty().push(p).to_multiset());
        assert(r.to_multiset() =~= s.to_multiset().insert(p));
        assert forall|i: int, j: int|
            0 <= i < j < r.len() implies (#[trigger] r[i]).page_num
            <= (#[trigger] r[j]).page_num by {
            if i == 0 {
                assert(r[j] == s[j - 1]);
                if j - 1 > 0 {
                    assert(s[0].page_num <= s[j - 1].page_num);
                }
            } else {
                assert(r[i] == s[i - 1] && r[j] == s[j - 1]);
            }
        }
        assert forall|x: FetchedPage| #[trigger] r.contains(x) implies (s.contains(x) || x
            == p) by {
            let k = choose|k: int| 0 <= k < r.len() && r[k] == x;
            if k > 0 {
                assert(s[k - 1] == x);
            }
        }
        assert forall|x: FetchedPage| s.contains(x) || x == p implies #[trigger] r.contains(
            x,
        ) by {
            if x == p {
                assert(r[0] == x);
            } else {
                let k = choose|k: int| 0 <= k < s.len() && s[k] == x;
                assert(r[k + 1] == x);
            }
        }
    } else {
        let d = s.drop_first();
        assert(spec_pages_sorted(d)) by {
            assert forall|i: int, j: int|
                0 <= i < j < d.len() implies (#[trigger] d[i]).page_num
                <= (#[trigger] d[j]).page_num by {
                assert(d[i] == s[i + 1] && d[j] == s[j + 1]);
            }
        }
        lemma_insert_page_ensures(d, p);
        let t = spec_insert_page(d, p);
        assert(r == seq![s[0]] + t);
        assert forall|i: int, j: int|
            0 <= i < j < r.len() implies (#[trigger] r[i]).page_num
            <= (#[trigger] r[j]).page_num by {
            if i == 0 {
                assert(r[j] == t[j - 1]);
                assert(t.contains(t[j - 1]));
                if t[j - 1] == p {
                } else {
                    let k = choose|k: int| 0 <= k < d.len() && d[k] == t[j - 1];
                    assert(d[k] == s[k + 1]);
                    assert(s[0].page_num <= s[k + 1].page_num);
                }
            } else {
                assert(r[i] == t[i - 1] && r[j] == t[j - 1]);
            }
        }
        assert(s =~= seq![s[0]] + d);
        vstd::seq_lib::lemma_multiset_commutative(seq![s[0]], d);
        vstd::seq_lib::lemma_multiset_commutative(seq![s[0]], t);
        assert(r.to_multiset() =~= s.to_multiset().insert(p));
        assert forall|x: FetchedPage| #[trigger] r.contains(x) implies (s.contains(x) || x
            == p) by {
            let k = choose|k: int| 0 <= k < r.len() && r[k] == x;
            if k == 0 {
                assert(s[0] == x);
            } else {
                assert(t[k - 1] == x);
                assert(t.contains(x));
                if s.contains(x) || x == p {
                } else {
                    assert(d.contains(x));
                    let w = choose|w: int| 0 <= w < d.len() && d[w] == x;
                    assert(s[w + 1] == x);
                }
            }
        }
        assert forall|x: FetchedPage| s.contains(x) || x == p implies #[trigger] r.contains(
            x,
        ) by {
            if x == p {
                assert(t.contains(x));
                let w = choose|w: int| 0 <= w < t.len() && t[w] == x;
                assert(r[w + 1] == x);
            } else {
                let k = choose|k: int| 0 <= k < s.len() && s[k] == x;
                if k == 0 {
                    assert(r[0] == x);
                } else {
                    assert(d[k - 1] == x);
                    assert(t.contains(x));
                    let w = choose|w: int| 0 <= w < t.len() && t[w] == x;
                    assert(r[w + 1] == x);
                }
            }
        }
    }
}

/// Sorting keeps exactly the given pages and orders them by page number.
pub proof fn lemma_sort_pages_ensures(s: Seq<FetchedPage>)
    ensures
        spec_pages_sorted(spec_sort_pages(s)),
        spec_sort_pages(s).to_multiset() == s.to_multiset(),
        spec_sort_pages(s).len() == s.len(),
        forall|x: FetchedPage|
            #[trigger] spec_sort_pages(s).contains(x) <==> s.contains(x),
    decreases s.len(),
{
    broadcast use group_to_multiset_ensures;
    broadcast use vstd::multiset::group_multiset_axioms;

    if s.len() == 0 {
    } else {
        let d = s.drop_last();
        lemma_sort_pages_ensures(d);
        lemma_insert_page_ensures(spec_sort_pages(d), s.last());
        assert(s =~= d.push(s.last()));
        assert(spec_sort_pages(s).to_multiset() =~= s.to_multiset());
        assert forall|x: FetchedPage|
            #[trigger] spec_sort_pages(s).contains(x) <==> s.contains(x) by {
            assert(spec_sort_pages(s).contains(x) == spec_sort_pages(s).to_multiset().contains(
                x,
            ));
            assert(s.contains(x) == s.to_multiset().contains(x));
        }
    }
}

/// Two page sequences that are sorted, carry the same pages, and have
/// distinct page numbers are the same sequence.
proof fn lemma_sorted_distinct_unique(x: Seq<FetchedPage>, y: Seq<FetchedPage>)
    requires
        spec_pages_sorted(x),
        spec_pages_sorted(y),
        x.to_multiset() == y.to_multiset(),
        spec_distinct_page_nums(x),
    ensures
        x == y,
    decreases x.len(),
{
    broadcast use group_to_multiset_ensures;
    broadcast use vstd::multiset::group_multiset_axioms;

    if x.len() == 0 {
        assert(y.to_multiset().len() == 0);
        assert(x =~= y);
    } else {
        assert(y.to_multiset().len() == x.len());
        assert(y.len() == x.len());
        assert(x.contains(x[0]));
        assert(y.to_multiset().contains(x[0]));
        assert(y.contains(x[0]));
        let j = choose|j: int| 0 <= j < y.len() && y[j] == x[0];
        assert(y[0].page_num <= x[0].page_num);
        assert(y.contains(y[0]));
        assert(x.to_multiset().contains(y[0]));
        assert(x.contains(y[0]));
        let k = choose|k: int| 0 <= k < x.len() && x[k] == y[0];
        assert(x[0].page_num <= y[0].page_num);
        assert(x[k].page_num == x[0].page_num);
        if k != 0 {
            assert(false);
        }
        assert(x[0] == y[0]);
        let xd = x.drop_first();
        let yd = y.drop_first();
        assert(xd =~= x.remove(0));
        assert(yd =~= y.remove(0));
        vstd::seq_lib::to_multiset_remove(x, 0);
        vstd::seq_lib::to_multiset_remove(y, 0);
        assert(xd.to_multiset() == x.to_multiset().remove(x[0]));
        assert(yd.to_multiset() == y.to_multiset().remove(y[0]));
        assert(spec_pages_sorted(xd) && spec_distinct_page_nums(xd)) by {
            assert forall|i: int, j2: int|
                0 <= i < j2 < xd.len() implies (#[trigger] xd[i]).page_num
                <= (#[trigger] xd[j2]).page_num && xd[i].page_num != xd[j2].page_num by {
                assert(xd[i] == x[i + 1] && xd[j2] == x[j2 + 1]);
            }
        }
        assert(spec_pages_sorted(yd)) by {
            assert forall|i: int, j2: int|
                0 <= i < j2 < yd.len() implies (#[trigger] yd[i]).page_num
                <= (#[trigger] yd[j2]).page_num by {
                assert(yd[i] == y[i + 1] && yd[j2] == y[j2 + 1]);
            }
        }
        lemma_sorted_distinct_unique(xd, yd);
        assert(x =~= y) by {
            assert forall|i: int| 0 <= i < x.len() implies x[i] == y[i] by {
                if i > 0 {
                    assert(x[i] == xd[i - 1] && y[i] == yd[i - 1]);
                }
            }
        }
    }
}

/// Pagination determinism: page sets with distinct page numbers assemble
/// to the same song sequence whatever order the fetches completed in.
pub proof fn lemma_assemble_deterministic(p1: Seq<FetchedPage>, p2: Seq<FetchedPage>)
    requires
        p1.to_multiset() == p2.to_multiset(),
        spec_distinct_page_nums(p1),
    ensures
        spec_assembled_songs(p1) == spec_assembled_songs(p2),
{
    broadcast use group_to_multiset_ensures;
    broadcast use vstd::multiset::group_multiset_axioms;

    lemma_sort_pages_ensures(p1);
    lemma_sort_pages_ensures(p2);
    let s1 = spec_sort_pages(p1);
    assert(spec_distinct_page_nums(s1)) by {
        assert forall|i: int, j: int|
            0 <= i < j < s1.len() implies (#[trigger] s1[i]).page_num
            != (#[trigger] s1[j]).page_num by {
            if s1[i].page_num == s1[j].page_num {
                if s1[i] == s1[j] {
                    lemma_dup_in_seq(s1, i, j);
                    lemma_multiset_dup_to_seq(p1, s1[i]);
                } else {
                    assert(s1.contains(s1[i]) && s1.contains(s1[j]));
                    assert(p1.contains(s1[i]) && p1.contains(s1[j]));
                    let a = choose|a: int| 0 <= a < p1.len() && p1[a] == s1[i];
                    let b = choose|b: int| 0 <= b < p1.len() && p1[b] == s1[j];
                    assert(a != b);
                    assert(false);
                }
            }
        }
    }
    lemma_sorted_distinct_unique(s1, spec_sort_pages(p2));
}

/// A value at two positions of a sequence has multiset count at least two.
proof fn lemma_dup_in_seq(s: Seq<FetchedPage>, i: int, j: int)
    requires
        0 <= i < j < s.len(),
        s[i] == s[j],
    ensures
        s.to_multiset().count(s[i]) >= 2,
{
    broadcast use group_to_multiset_ensures;
    broadcast use vstd::multiset::group_multiset_axioms;

    let v = s[i];
    let r = s.remove(j);
    assert(s =~= r.insert(j, v));
    vstd::seq_lib::to_multiset_insert(r, j, v);
    assert(s.to_multiset() == r.to_multiset().insert(v));
    assert(r[i] == v);
    assert(r.contains(v));
    assert(r.to_multiset().count(v) >= 1);
}

/// A value with multiset count at least two sits at two distinct
/// positions of any sequence with that multiset.
proof fn lemma_multiset_dup_to_seq(s: Seq<FetchedPage>, v: FetchedPage)
    requires
        s.to_multiset().count(v) >= 2,
    ensures
        exists|a: int, b: int| 0 <= a < b < s.len() && s[a] == v && s[b] == v,
{
    broadcast use group_to_multiset_ensures;
    broadcast use vstd::multiset::group_multiset_axioms;

    assert(s.to_multiset().contains(v));
    assert(s.contains(v));
    let a = choose|a: int| 0 <= a < s.len() && s[a] == v;
    let r = s.remove(a);
    assert(s =~= r.insert(a, v));
    vstd::seq_lib::to_multiset_insert(r, a, v);
    assert(r.to_multiset().count(v) >= 1);
    assert(r.contains(v));
    let b0 = choose|b0: int| 0 <= b0 < r.len() && r[b0] == v;
    if b0 < a {
        assert(s[b0] == v);
        assert(0 <= b0 < a < s.len() && s[b0] == v && s[a] == v);
    } else {
        assert(s[b0 + 1] == v);
        assert(0 <= a < b0 + 1 < s.len() && s[a] == v && s[b0 + 1] == v);
    }
}

/// The paginated extractor for the SOUND VOLTEX song index.
pub struct SoundVoltexVIExtractor;

impl SoundVoltexVIExtractor {
    /// Extract the canonical songs of one fetched page.
    pub fn process_page(page_num: usize, entries: &Vec<MusicEntry>) -> (r: Result<
        FetchedPage,
        DecodeError,
    >)
        ensures
            r is Ok <==> spec_page_ok(entries@),
            r matches Ok(p) ==> p.page_num == page_num && spec_page_songs_match(
                entries@,
                p.songs@,
            ),
            r matches Err(e) ==> e matches DecodeError::UnknownLevelKind(t),
    {
        let mut songs: Vec<Song> = Vec::new();
        for i in 0..entries.len()
            invariant
                songs@.len() == i,
                forall|j: int| 0 <= j < i ==> spec_entry_ok(#[trigger] entries@[j]),
                forall|j: int|
                    0 <= j < i ==> spec_song_matches_entry(
                        #[trigger] songs@[j],
                        entries@[j],
                    ),
        {
            match song_from_entry(&entries[i]) {
                Ok(s) => songs.push(s),
                Err(e) => {
                    return Err(e);
                },
            }
        }
        Ok(FetchedPage { page_num, songs })
    }

    /// Parse the page-selector options and return the largest page index;
    /// zero when the selector is empty.
    pub fn parse_page_count(options: &Vec<String>) -> (r: Result<usize, DecodeError>)
        ensures
            r is Ok <==> spec_page_options_ok(options@),
            r matches Ok(v) ==> v == spec_max_page(options@),
            r matches Err(e) ==> (e matches DecodeError::BadNumber(t) && exists|i: int|
                0 <= i < options@.len() && t@ == (#[trigger] options@[i])@),
    {
        let mut max_page: usize = 0;
        for i in 0..options.len()
            invariant
                spec_page_options_ok(options@.take(i as int)),
                max_page == spec_max_page(options@.take(i as int)),
        {
            let v = match parse_usize(options[i].as_str()) {
                Ok(v) => v,
                Err(e) => {
                    return Err(e);
                },
            };
            proof {
                assert(options@.take(i + 1).drop_last() =~= options@.take(i as int));
                assert(options@.take(i + 1).last() == options@[i as int]);
            }
            if v > max_page {
                max_page = v;
            }
        }
        proof {
            assert(options@.take(options@.len() as int) =~= options@);
        }
        Ok(max_page)
    }

    /// Reassemble concurrently fetched pages into the canonical song
    /// sequence: sort by page index, then concatenate.
    pub fn assemble_pages(pages: Vec<FetchedPage>) -> (r: Vec<Song>)
        ensures
            r@ == spec_assembled_songs(pages@),
    {
        let sorted = sort_pages(pages);
        flatten_pages(sorted)
    }
}

/// `spec_insert_page` is insertion at the first fitting position.
proof fn lemma_insert_page_shape(s: Seq<FetchedPage>, p: FetchedPage, k: int)
    requires
        0 <= k <= s.len(),
        forall|j: int| 0 <= j < k ==> (#[trigger] s[j]).page_num < p.page_num,
        k < s.len() ==> p.page_num <= s[k].page_num,
    ensures
        spec_insert_page(s, p) == s.insert(k, p),
    decreases s.len(),
{
    if s.len() == 0 {
        assert(spec_insert_page(s, p) =~= s.insert(0, p));
    } else if k == 0 {
        assert(spec_insert_page(s, p) =~= s.insert(0, p));
    } else {
        let d = s.drop_first();
        assert(s[0].page_num < p.page_num);
        assert forall|j: int| 0 <= j < k - 1 implies (#[trigger] d[j]).page_num
            < p.page_num by {
            assert(d[j] == s[j + 1]);
        }
        if k - 1 < d.len() {
            assert(d[k - 1] == s[k]);
        }
        lemma_insert_page_shape(d, p, k - 1);
        assert(spec_insert_page(s, p) == seq![s[0]] + d.insert(k - 1, p));
        assert(spec_insert_page(s, p) =~= s.insert(k, p));
    }
}

/// Insert one page before the first page whose number is not smaller.
fn insert_page(v: &mut Vec<FetchedPage>, p: FetchedPage)
    ensures
        final(v)@ == spec_insert_page(old(v)@, p),
{
    let mut k: usize = 0;
    while k < v.len() && v[k].page_num < p.page_num
        invariant
            v@ == old(v)@,
            k <= v@.len(),
            forall|j: int| 0 <= j < k ==> (#[trigger] v@[j]).page_num < p.page_num,
        decreases v@.len() - k,
    {
        k += 1;
    }
    proof {
        lemma_insert_page_shape(v@, p, k as int);
    }
    v.insert(k, p);
}

/// Sort fetched pages by page number.
fn sort_pages(pages: Vec<FetchedPage>) -> (r: Vec<FetchedPage>)
    ensures
        r@ == spec_sort_pages(pages@),
{
    let ghost orig = pages@;
    let mut rest = pages;
    let mut sorted: Vec<FetchedPage> = Vec::new();
    let n = rest.len();
    for i in 0..n
        invariant
            n == orig.len(),
            rest@ == orig.skip(i as int),
            sorted@ == spec_sort_pages(orig.take(i as int)),
    {
        let p = rest.remove(0);
        proof {
            assert(orig.skip(i as int)[0] == orig[i as int]);
            assert(orig.skip(i as int).remove(0) =~= orig.skip(i + 1));
            assert(orig.take(i + 1).drop_last() =~= orig.take(i as int));
            assert(orig.take(i + 1).last() == orig[i as int]);
        }
        insert_page(&mut sorted, p);
    }
    proof {
        assert(orig.take(n as int) =~= orig);
    }
    sorted
}

/// Concatenate the pages' songs in the order given.
fn flatten_pages(pages: Vec<FetchedPage>) -> (r: Vec<Song>)
    ensures
        r@ == spec_flatten_pages(pages@),
{
    let ghost orig = pages@;
    let mut rest = pages;
    let mut out: Vec<Song> = Vec::new();
    let n = rest.len();
    for i in 0..n
        invariant
            n == orig.len(),
            rest@ == orig.skip(i as int),
            out@ == spec_flatten_pages(orig.take(i as int)),
    {
        let mut p = rest.remove(0);
        proof {
            assert(orig.skip(i as int)[0] == orig[i as int]);
            assert(orig.skip(i as int).remove(0) =~= orig.skip(i + 1));
            assert(orig.take(i + 1).drop_last() =~= orig.take(i as int));
            assert(orig.take(i + 1).last() == orig[i as int]);
        }
        out.append(&mut p.songs);
    }
    proof {
        assert(orig.take(n as int) =~= orig);
    }
    out
}

} // verus!
