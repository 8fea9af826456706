//! The set-mode category consistency check.
//!
//! A source declares a taxonomy, and its songs reference categories; the
//! check fails when the two key sets differ, reporting both difference
//! sets.  A key is an (identifier, display-name) pair; sources that key by
//! only one of the two leave the other component empty.

use vstd::prelude::*;

use crate::shared::strutil::str_eq;

verus! {

/// The identity of one category for the consistency check.
#[derive(Debug, PartialEq)]
pub struct CategoryKey {
    pub id: String,
    pub name: String,
}

/// The declared taxonomy and the categories used by the songs disagree.
/// Both difference sets are carried for reporting.
#[derive(Debug)]
pub struct CategoryMismatch {
    /// Keys the songs use but the taxonomy does not declare.
    pub extra: Vec<CategoryKey>,
    /// Keys the taxonomy declares but no song uses.
    pub missing: Vec<CategoryKey>,
}

/// Some element of `s` has exactly this identifier and name.
pub open spec fn spec_keys_contain(s: Seq<CategoryKey>, id: Seq<char>, name: Seq<char>) -> bool {
    exists|i: int| 0 <= i < s.len() && (#[trigger] s[i]).id@ == id && s[i].name@ == name
}

/// The two key sequences describe the same key set.
pub open spec fn spec_same_key_sets(d: Seq<CategoryKey>, u: Seq<CategoryKey>) -> bool {
    (forall|i: int|
        0 <= i < d.len() ==> spec_keys_contain(u, (#[trigger] d[i]).id@, d[i].name@))
        && (forall|i: int|
        0 <= i < u.len() ==> spec_keys_contain(d, (#[trigger] u[i]).id@, u[i].name@))
}

/// `m` reports exactly the two difference sets of `d` (declared) and `u`
/// (used): `extra` holds the used-but-undeclared keys, `missing` the
/// declared-but-unused keys.
pub open spec fn spec_mismatch_reports(
    d: Seq<CategoryKey>,
    u: Seq<CategoryKey>,
    m: CategoryMismatch,
) -> bool {
    (forall|k: int|
        0 <= k < m.extra@.len() ==> spec_keys_contain(u, (#[trigger] m.extra@[k]).id@, m.extra@[k].name@)
            && !spec_keys_contain(d, m.extra@[k].id@, m.extra@[k].name@))
        && (forall|i: int|
        0 <= i < u.len() && !spec_keys_contain(d, (#[trigger] u[i]).id@, u[i].name@)
            ==> spec_keys_contain(m.extra@, u[i].id@, u[i].name@))
        && (forall|k: int|
        0 <= k < m.missing@.len() ==> spec_keys_contain(
            d,
            (#[trigger] m.missing@[k]).id@,
            m.missing@[k].name@,
        ) && !spec_keys_contain(u, m.missing@[k].id@, m.missing@[k].name@))
        && (forall|i: int|
        0 <= i < d.len() && !spec_keys_contain(u, (#[trigger] d[i]).id@, d[i].name@)
            ==> spec_keys_contain(m.missing@, d[i].id@, d[i].name@))
}

/// Some reported key has exactly this display name.
pub open spec fn spec_report_names_contain(s: Seq<CategoryKey>, name: Seq<char>) -> bool {
    exists|i: int| 0 <= i < s.len() && (#[trigger] s[i]).name@ == name
}

/// Some reported key has exactly this identifier.
pub open spec fn spec_report_ids_contain(s: Seq<CategoryKey>, id: Seq<char>) -> bool {
    exists|i: int| 0 <= i < s.len() && (#[trigger] s[i]).id@ == id
}

/// Whether `v` holds the key `(id, name)`.
pub fn keys_contain(v: &Vec<CategoryKey>, id: &str, name: &str) -> (r: bool)
    ensures
        r == spec_keys_contain(v@, id@, name@),
{
    for i in 0..v.len()
        invariant
            forall|j: int|
                0 <= j < i ==> !((#[trigger] v@[j]).id@ == id@ && v@[j].name@ == name@),
    {
        if str_eq(v[i].id.as_str(), id) && str_eq(v[i].name.as_str(), name) {
            return true;
        }
    }
    false
}

/// Compare the declared key set against the used key set; on disagreement
/// report both difference sets.
pub fn check_key_sets(declared: &Vec<CategoryKey>, used: &Vec<CategoryKey>) -> (r: Result<
    (),
    CategoryMismatch,
>)
    ensures
        r is Ok <==> spec_same_key_sets(declared@, used@),
        r matches Err(m) ==> spec_mismatch_reports(declared@, used@, m),
{
    let mut missing: Vec<CategoryKey> = Vec::new();
    let mut extra: Vec<CategoryKey> = Vec::new();
    for i in 0..declared.len()
        invariant
            forall|j: int|
                0 <= j < i && !spec_keys_contain(
                    used@,
                    (#[trigger] declared@[j]).id@,
                    declared@[j].name@,
                ) ==> spec_keys_contain(missing@, declared@[j].id@, declared@[j].name@),
            forall|k: int|
                0 <= k < missing@.len() ==> spec_keys_contain(
                    declared@,
                    (#[trigger] missing@[k]).id@,
                    missing@[k].name@,
                ) && !spec_keys_contain(used@, missing@[k].id@, missing@[k].name@),
    {
        if !keys_contain(used, declared[i].id.as_str(), declared[i].name.as_str()) {
            let ghost m0 = missing@;
            missing.push(
                CategoryKey { id: declared[i].id.clone(), name: declared[i].name.clone() },
            );
            proof {
                assert(missing@ == m0.push(missing@[m0.len() as int]));
                assert(missing@[m0.len() as int].id@ == declared@[i as int].id@);
                assert forall|k: int|
                    0 <= k < missing@.len() implies spec_keys_contain(
                    declared@,
                    (#[trigger] missing@[k]).id@,
                    missing@[k].name@,
                ) && !spec_keys_contain(used@, missing@[k].id@, missing@[k].name@) by {
                    if k < m0.len() {
                        assert(missing@[k] == m0[k]);
                    } else {
                        assert(spec_keys_contain(
                            declared@,
                            declared@[i as int].id@,
                            declared@[i as int].name@,
                        ));
                    }
                }
                assert forall|j: int|
                    0 <= j < i + 1 && !spec_keys_contain(
                        used@,
                        (#[trigger] declared@[j]).id@,
                        declared@[j].name@,
                    ) implies spec_keys_contain(missing@, declared@[j].id@, declared@[j].name@) by {
                    if j < i {
                        let w = choose|w: int|
                            0 <= w < m0.len() && (#[trigger] m0[w]).id@ == declared@[j].id@
                                && m0[w].name@ == declared@[j].name@;
                        assert(missing@[w] == m0[w]);
                    } else {
                        assert(missing@[m0.len() as int].id@ == declared@[j].id@);
                    }
                }
            }
        }
    }
    for i in 0..used.len()
        invariant
            forall|j: int|
                0 <= j < i && !spec_keys_contain(
                    declared@,
                    (#[trigger] used@[j]).id@,
                    used@[j].name@,
                ) ==> spec_keys_contain(extra@, used@[j].id@, used@[j].name@),
            forall|k: int|
                0 <= k < extra@.len() ==> spec_keys_contain(
                    used@,
                    (#[trigger] extra@[k]).id@,
                    extra@[k].name@,
                ) && !spec_keys_contain(declared@, extra@[k].id@, extra@[k].name@),
            forall|j: int|
                0 <= j < declared@.len() && !spec_keys_contain(
                    used@,
                    (#[trigger] declared@[j]).id@,
                    declared@[j].name@,
                ) ==> spec_keys_contain(missing@, declared@[j].id@, declared@[j].name@),
            forall|k: int|
                0 <= k < missing@.len() ==> spec_keys_contain(
                    declared@,
                    (#[trigger] missing@[k]).id@,
                    missing@[k].name@,
                ) && !spec_keys_contain(used@, missing@[k].id@, missing@[k].name@),
    {
        if !keys_contain(declared, used[i].id.as_str(), used[i].name.as_str()) {
            let ghost e0 = extra@;
            extra.push(CategoryKey { id: used[i].id.clone(), name: used[i].name.clone() });
            proof {
                assert(extra@ == e0.push(extra@[e0.len() as int]));
                assert(extra@[e0.len() as int].id@ == used@[i as int].id@);
                assert forall|k: int|
                    0 <= k < extra@.len() implies spec_keys_contain(
                    used@,
                    (#[trigger] extra@[k]).id@,
                    extra@[k].name@,
                ) && !spec_keys_contain(declared@, extra@[k].id@, extra@[k].name@) by {
                    if k < e0.len() {
                        assert(extra@[k] == e0[k]);
                    } else {
                        assert(spec_keys_contain(
                            used@,
                            used@[i as int].id@,
                            used@[i as int].name@,
                        ));
                    }
                }
                assert forall|j: int|
                    0 <= j < i + 1 && !spec_keys_contain(
                        declared@,
                        (#[trigger] used@[j]).id@,
                        used@[j].name@,
                    ) implies spec_keys_contain(extra@, used@[j].id@, used@[j].name@) by {
                    if j < i {
                        let w = choose|w: int|
                            0 <= w < e0.len() && (#[trigger] e0[w]).id@ == used@[j].id@
                                && e0[w].name@ == used@[j].name@;
                        assert(extra@[w] == e0[w]);
                    } else {
                        assert(extra@[e0.len() as int].id@ == used@[j].id@);
                    }
                }
            }
        }
    }
    if missing.len() == 0 && extra.len() == 0 {
        Ok(())
    } else {
        proof {
            if spec_same_key_sets(declared@, used@) {
                if missing@.len() > 0 {
                    let w = choose|w: int|
                        0 <= w < declared@.len() && (#[trigger] declared@[w]).id@
                            == missing@[0].id@ && declared@[w].name@ == missing@[0].name@;
                    assert(spec_keys_contain(used@, declared@[w].id@, declared@[w].name@));
                } else {
                    let w = choose|w: int|
                        0 <= w < used@.len() && (#[trigger] used@[w]).id@ == extra@[0].id@
                            && used@[w].name@ == extra@[0].name@;
                    assert(spec_keys_contain(declared@, used@[w].id@, used@[w].name@));
                }
                assert(false);
            }
        }
        Err(CategoryMismatch { extra, missing })
    }
}

} // verus!
