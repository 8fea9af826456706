//! The cross-source run outcome.
//!
//! Every configured source is attempted independently; one source's
//! failure never cancels another.  The process-level outcome is the
//! logical OR of the per-source failures.

use vstd::prelude::*;

verus! {

/// One source's result line: its name and whether its run succeeded.
#[derive(Debug)]
pub struct SourceOutcome {
    pub name: String,
    pub ok: bool,
}

/// Whether the whole run failed: true exactly when at least one source
/// failed, however many others succeeded.
pub fn run_failed(outcomes: &Vec<SourceOutcome>) -> (r: bool)
    ensures
        r == exists|i: int| 0 <= i < outcomes@.len() && !(#[trigger] outcomes@[i]).ok,
{
    for i in 0..outcomes.len()
        invariant
            forall|j: int| 0 <= j < i ==> (#[trigger] outcomes@[j]).ok,
    {
        if !outcomes[i].ok {
            return true;
        }
    }
    false
}

} // verus!
