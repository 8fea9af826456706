//! The two interfaces every source implements: a name with its derived
//! storage paths, and a snapshot with a content-difference test.

use vstd::prelude::*;
use vstd::string::StringExecFns;

verus! {

/// `tail` appended to `base` as a path segment; an empty base contributes
/// no separator.
pub open spec fn spec_join_path(base: Seq<char>, tail: Seq<char>) -> Seq<char> {
    if base.len() == 0 {
        tail
    } else {
        base + "/"@ + tail
    }
}

/// Append `tail` to `base` as a path segment.
pub fn join_path(base: &str, tail: &str) -> (r: String)
    ensures
        r@ == spec_join_path(base@, tail@),
{
    if base.unicode_len() == 0 {
        String::from_str(tail)
    } else {
        let mut s = String::from_str(base);
        s.append("/");
        s.append(tail);
        s
    }
}

/// One synchronized music service.  The name is both the log tag and the
/// storage-path segment for the source's local snapshot.
pub trait Otoge {
    /// The source's stable name.
    spec fn spec_name() -> Seq<char>;

    fn name() -> (r: &'static str)
        ensures
            r@ == Self::spec_name(),
    ;

    /// The directory that holds this source's local data.
    fn data_path(base_path: Option<&str>) -> (r: String)
        ensures
            r@ == match base_path {
                Option::Some(b) => spec_join_path(b@, Self::spec_name()),
                Option::None => spec_join_path(""@, Self::spec_name()),
            },
    {
        let base = match base_path {
            Option::Some(b) => b,
            Option::None => "",
        };
        join_path(base, Self::name())
    }

    /// The file that holds this source's persisted song list.
    fn music_data_store_path(base_path: Option<&str>) -> (r: String)
        ensures
            r@ == spec_join_path(
                match base_path {
                    Option::Some(b) => spec_join_path(b@, Self::spec_name()),
                    Option::None => spec_join_path(""@, Self::spec_name()),
                },
                "music.toml"@,
            ),
    {
        let dir = Self::data_path(base_path);
        join_path(dir.as_str(), "music.toml")
    }
}

/// A persisted snapshot that can tell whether its content differs from
/// another snapshot's.  The last-synchronized timestamp never participates.
pub trait DataStore {
    /// What "content differs" means for this snapshot type.
    spec fn spec_differs(&self, other: &Self) -> bool;

    fn data_differs(&self, other: &Self) -> (r: bool)
        ensures
            r == self.spec_differs(other),
    ;
}

} // verus!
