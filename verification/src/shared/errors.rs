//! Error taxonomy for one source's synchronization run.
//!
//! Every error is scoped to a single source.  Decode errors come from
//! normalizing a raw record; consistency errors come from the category
//! check and carry both difference sets so callers can report them.

use vstd::prelude::*;

use crate::shared::consistency::CategoryMismatch;

verus! {

/// A raw field could not be decoded into its canonical form.
/// Each variant carries the offending token.
#[derive(Debug)]
pub enum DecodeError {
    /// A boolean field held none of the tokens the source uses.
    UnknownBoolToken(String),
    /// A date field was not a parseable date in the source's fixed format.
    BadDate(String),
    /// A numeric field held something other than decimal digits.
    BadNumber(String),
    /// A difficulty-level label was not one the source defines.
    UnknownLevelKind(String),
}

/// A fatal error for one source's run.
#[derive(Debug)]
pub enum SyncError {
    /// Normalizing a raw record failed.
    Decode(DecodeError),
    /// The category consistency check failed.
    Consistency(CategoryMismatch),
}

} // verus!
