//! The POLARIS CHORD source.  Its taxonomy is itself remotely
//! discoverable, so the consistency check compares the declared list
//! against the scraped authoritative list element for element.

pub mod models;

use vstd::prelude::*;
use vstd::string::StringExecFns;

use crate::shared::errors::DecodeError;
use crate::shared::numbers::{parse_usize, spec_all_digits, spec_decimal_value};
use crate::shared::strutil::str_eq;
use crate::shared::traits::{DataStore as DataStoreTrait, Otoge};

use models::{
    categories_eq, normalize_songs, spec_categories_eq, spec_song_from_raw, spec_store_wf,
    Category, DataStore, SongFromAPI,
};

verus! {

/// The POLARIS CHORD service.
pub struct PolarisChord;

impl Otoge for PolarisChord {
    open spec fn spec_name() -> Seq<char> {
        "polarischord"@
    }

    fn name() -> (r: &'static str) {
        "polarischord"
    }
}

/// The slug of the taxonomy's `i`-th entry.
pub open spec fn spec_category_slug_of(i: int) -> Seq<char> {
    if i == 0 {
        "virtual"@
    } else if i == 1 {
        "social"@
    } else if i == 2 {
        "pops&anime"@
    } else if i == 3 {
        "touhou"@
    } else if i == 4 {
        "variety"@
    } else {
        "original"@
    }
}

/// The display name of the taxonomy's `i`-th entry.
pub open spec fn spec_category_name_of(i: int) -> Seq<char> {
    if i == 0 {
        "Virtual"@
    } else if i == 1 {
        "ソーシャルミュージック"@
    } else if i == 2 {
        "POPS&アニメ"@
    } else if i == 3 {
        "東方"@
    } else if i == 4 {
        "バラエティ"@
    } else {
        "オリジナル"@
    }
}

/// The fixed POLARIS CHORD taxonomy, entry by entry.  The selector index
/// of the `i`-th entry is `i + 1`.
pub open spec fn spec_all_categories(s: Seq<Category>) -> bool {
    s.len() == 6 && forall|i: int|
        0 <= i < 6 ==> (#[trigger] s[i]).bitflag == i + 1 && s[i].slug@ == spec_category_slug_of(
            i,
        ) && s[i].name@ == spec_category_name_of(i)
}

/// The fixed category taxonomy of the POLARIS CHORD source.
pub fn get_all_categories() -> (r: Vec<Category>)
    ensures
        spec_all_categories(r@),
{
    let mut v: Vec<Category> = Vec::new();
    v.push(
        Category { bitflag: 1, slug: String::from_str("virtual"), name: String::from_str("Virtual") },
    );
    v.push(
        Category {
            bitflag: 2,
            slug: String::from_str("social"),
            name: String::from_str("ソーシャルミュージック"),
        },
    );
    v.push(
        Category {
            bitflag: 3,
            slug: String::from_str("pops&anime"),
            name: String::from_str("POPS&アニメ"),
        },
    );
    v.push(
        Category { bitflag: 4, slug: String::from_str("touhou"), name: String::from_str("東方") },
    );
    v.push(
        Category {
            bitflag: 5,
            slug: String::from_str("variety"),
            name: String::from_str("バラエティ"),
        },
    );
    v.push(
        Category {
            bitflag: 6,
            slug: String::from_str("original"),
            name: String::from_str("オリジナル"),
        },
    );
    proof {
        assert(spec_all_categories(v@)) by {
            assert forall|i: int|
                0 <= i < 6 implies (#[trigger] v@[i]).bitflag == i + 1 && v@[i].slug@
                == spec_category_slug_of(i) && v@[i].name@ == spec_category_name_of(i) by {
                if i == 0 {
                } else if i == 1 {
                } else if i == 2 {
                } else if i == 3 {
                } else if i == 4 {
                } else {
                }
            }
        }
    }
    v
}

/// One option of the scraped category selector, reduced to plain text:
/// the numeric index attribute, the slug-valued attribute, and the
/// joined option text.
#[derive(Debug)]
pub struct RawCategoryOption {
    pub data_index: String,
    pub value: String,
    pub text: String,
}

/// The option's index attribute parses as a number.
pub open spec fn spec_option_ok(o: RawCategoryOption) -> bool {
    o.data_index@.len() > 0 && spec_all_digits(o.data_index@) && spec_decimal_value(o.data_index@)
        <= u32::MAX
}

/// The catch-all selector entry, which is not a category.
pub open spec fn spec_option_skipped(o: RawCategoryOption) -> bool {
    spec_decimal_value(o.data_index@) == 0 && o.value@ == "all"@
}

/// The categories the first `n` selector options stand for, in order,
/// with the catch-all entry left out.
pub open spec fn spec_cats_from_options(opts: Seq<RawCategoryOption>, n: int) -> Seq<Category>
    decreases n,
{
    if n <= 0 {
        Seq::empty()
    } else {
        let prev = spec_cats_from_options(opts, n - 1);
        if spec_option_skipped(opts[n - 1]) {
            prev
        } else {
            prev + seq![
                Category {
                    bitflag: spec_decimal_value(opts[n - 1].data_index@) as u32,
                    slug: opts[n - 1].value,
                    name: opts[n - 1].text,
                },
            ]
        }
    }
}

/// Build the authoritative category list from the scraped selector
/// options, skipping the catch-all entry.
pub fn categories_from_options(options: &Vec<RawCategoryOption>) -> (r: Result<
    Vec<Category>,
    DecodeError,
>)
    ensures
        r is Ok <==> (forall|i: int|
            0 <= i < options@.len() ==> spec_option_ok(#[trigger] options@[i])),
        r matches Ok(v) ==> v@ == spec_cats_from_options(options@, options@.len() as int),
        r matches Err(e) ==> (e matches DecodeError::BadNumber(t) && exists|i: int|
            0 <= i < options@.len() && t@ == (#[trigger] options@[i]).data_index@),
{
    let mut cats: Vec<Category> = Vec::new();
    for i in 0..options.len()
        invariant
            forall|j: int| 0 <= j < i ==> spec_option_ok(#[trigger] options@[j]),
            cats@ == spec_cats_from_options(options@, i as int),
    {
        let bitflag_usize = match parse_usize(options[i].data_index.as_str()) {
            Ok(v) => v,
            Err(e) => {
                return Err(e);
            },
        };
        if bitflag_usize > (u32::MAX as usize) {
            return Err(DecodeError::BadNumber(options[i].data_index.clone()));
        }
        let bitflag = bitflag_usize as u32;
        let ghost c0 = cats@;
        if bitflag == 0 && str_eq(options[i].value.as_str(), "all") {
            proof {
                assert(spec_option_skipped(options@[i as int]));
            }
        } else {
            cats.push(
                Category {
                    bitflag,
                    slug: options[i].value.clone(),
                    name: options[i].text.clone(),
                },
            );
            proof {
                assert(!spec_option_skipped(options@[i as int]));
                assert(cats@ =~= c0 + seq![
                    Category {
                        bitflag: spec_decimal_value(options@[i as int].data_index@) as u32,
                        slug: options@[i as int].value,
                        name: options@[i as int].text,
                    },
                ]);
            }
        }
    }
    Ok(cats)
}

/// The structural difference report of the exact-sequence check: both
/// full lists, for the caller to display.
#[derive(Debug)]
pub struct CategorySeqMismatch {
    pub declared: Vec<Category>,
    pub fetched: Vec<Category>,
}

/// Exact-sequence consistency check: the declared taxonomy must equal
/// the independently fetched authoritative list element for element —
/// same order, same index, same slug, same name.  Set equality is not
/// enough.
pub fn verify_categories(ds: &DataStore, fetched: Vec<Category>) -> (r: Result<
    (),
    CategorySeqMismatch,
>)
    ensures
        r is Ok <==> spec_categories_eq(ds.categories@, fetched@),
        r matches Err(m) ==> !spec_categories_eq(ds.categories@, fetched@)
            && spec_categories_eq(m.declared@, ds.categories@) && m.fetched == fetched,
{
    if categories_eq(&ds.categories, &fetched) {
        Ok(())
    } else {
        let mut declared: Vec<Category> = Vec::new();
        for i in 0..ds.categories.len()
            invariant
                declared@.len() == i,
                forall|j: int|
                    0 <= j < i ==> models::spec_category_eq(
                        #[trigger] declared@[j],
                        ds.categories@[j],
                    ),
        {
            declared.push(
                Category {
                    bitflag: ds.categories[i].bitflag,
                    slug: ds.categories[i].slug.clone(),
                    name: ds.categories[i].name.clone(),
                },
            );
        }
        Err(CategorySeqMismatch { declared, fetched })
    }
}

/// The outcome of the POLARIS CHORD run: the freshly built snapshot, and
/// whether it must be persisted.
pub struct SyncPlan {
    pub store: DataStore,
    pub write: bool,
}

/// Drive the POLARIS CHORD source from fetched raw records and the
/// scraped authoritative category list to a decision: normalize, build
/// the fresh snapshot, require the declared taxonomy to match the
/// authoritative list exactly, and compare against the local snapshot.
pub fn plan_sync(
    name: &str,
    local: &Option<DataStore>,
    raws: &Vec<SongFromAPI>,
    fetched: Vec<Category>,
) -> (r: Result<SyncPlan, CategorySeqMismatch>)
    ensures
        r is Ok <==> spec_all_categories(fetched@),
        r matches Ok(p) ==> {
            &&& p.store.name@ == name@
            &&& p.store.count == raws@.len()
            &&& p.store.songs@.len() == raws@.len()
            &&& forall|i: int|
                0 <= i < raws@.len() ==> spec_song_from_raw(
                    raws@[i],
                    #[trigger] p.store.songs@[i],
                )
            &&& spec_all_categories(p.store.categories@)
            &&& spec_store_wf(p.store)
            &&& p.write == match local {
                Option::None => true,
                Option::Some(l) => l.spec_differs(&p.store),
            }
        },
        r matches Err(m) ==> !spec_all_categories(fetched@) && spec_all_categories(m.declared@)
            && m.fetched == fetched,
{
    let songs = normalize_songs(raws);
    let ds = DataStore::new(name, songs);
    proof {
        lemma_taxonomy_exactness(ds.categories@, fetched@);
    }
    match verify_categories(&ds, fetched) {
        Ok(()) => {},
        Err(m) => {
            proof {
                assert forall|i: int|
                    0 <= i < 6 implies (#[trigger] m.declared@[i]).bitflag == i + 1
                    && m.declared@[i].slug@ == spec_category_slug_of(i) && m.declared@[i].name@
                    == spec_category_name_of(i) by {
                    assert(models::spec_category_eq(m.declared@[i], ds.categories@[i]));
                }
            }
            return Err(m);
        },
    };
    let write = match local {
        Option::None => true,
        Option::Some(l) => l.data_differs(&ds),
    };
    Ok(SyncPlan { store: ds, write })
}

/// A list is element-wise equal to a taxonomy-shaped list exactly when
/// it is itself taxonomy-shaped.
proof fn lemma_taxonomy_exactness(cats: Seq<Category>, fetched: Seq<Category>)
    requires
        spec_all_categories(cats),
    ensures
        spec_categories_eq(cats, fetched) <==> spec_all_categories(fetched),
{
    if spec_categories_eq(cats, fetched) {
        assert forall|i: int|
            0 <= i < 6 implies (#[trigger] fetched[i]).bitflag == i + 1 && fetched[i].slug@
            == spec_category_slug_of(i) && fetched[i].name@ == spec_category_name_of(i) by {
            assert(models::spec_category_eq(cats[i], fetched[i]));
        }
    }
    if spec_all_categories(fetched) {
        assert forall|i: int|
            0 <= i < cats.len() implies models::spec_category_eq(
            cats[i],
            #[trigger] fetched[i],
        ) by {
            assert(cats[i].bitflag == i + 1 && fetched[i].bitflag == i + 1);
        }
    }
}

} // verus!