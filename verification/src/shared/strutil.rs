//! Small executable helpers for comparing strings by content.

use vstd::prelude::*;
use vstd::string::StringExecFns;

verus! {

/// Spec-level equality of two optional strings by their character content.
pub open spec fn opt_str_eq(a: Option<String>, b: Option<String>) -> bool {
    match (a, b) {
        (Option::None, Option::None) => true,
        (Option::Some(x), Option::Some(y)) => x@ == y@,
        _ => false,
    }
}

/// An empty string collapses to an absent value; anything else is kept.
pub open spec fn none_if_empty(s: String) -> Option<String> {
    if s@.len() == 0 {
        Option::None
    } else {
        Option::Some(s)
    }
}

/// Content equality of two string slices.
pub fn str_eq(a: &str, b: &str) -> (r: bool)
    ensures
        r == (a@ == b@),
{
    let sa = String::from_str(a);
    let sb = String::from_str(b);
    sa == sb
}

/// Content equality of two optional strings.
pub fn opt_string_eq(a: &Option<String>, b: &Option<String>) -> (r: bool)
    ensures
        r == opt_str_eq(*a, *b),
{
    match (a, b) {
        (Option::None, Option::None) => true,
        (Option::Some(x), Option::Some(y)) => x.eq(y),
        _ => false,
    }
}

} // verus!
