//! The all-default collapses for CHUNITHM's nested attribute records.

use vstd::prelude::*;

use super::models::{spec_level_map_absent, LevelMap, WorldsEndInfo};

verus! {

/// Collapse a level map whose every tier is absent to an absent value;
/// a map with any tier present is kept as is.
pub fn empty_levels_as_none(levels: LevelMap) -> (r: Option<LevelMap>)
    ensures
        r == if spec_level_map_absent(levels) {
            Option::<LevelMap>::None
        } else {
            Option::<LevelMap>::Some(levels)
        },
{
    if levels.basic.is_none() && levels.advanced.is_none() && levels.expert.is_none()
        && levels.master.is_none() && levels.ultima.is_none() {
        Option::None
    } else {
        Option::Some(levels)
    }
}

/// Collapse a WORLD'S END annotation whose fields are both empty to an
/// absent value; an annotation with any content is kept as is.
pub fn empty_worlds_end_as_none(worlds_end: WorldsEndInfo) -> (r: Option<WorldsEndInfo>)
    ensures
        r == if worlds_end.kanji@.len() == 0 && worlds_end.star@.len() == 0 {
            Option::<WorldsEndInfo>::None
        } else {
            Option::<WorldsEndInfo>::Some(worlds_end)
        },
{
    if worlds_end.kanji.as_str().is_empty() && worlds_end.star.as_str().is_empty() {
        Option::None
    } else {
        Option::Some(worlds_end)
    }
}

} // verus!
