//! The maimai release-date decoder.

use vstd::prelude::*;
use vstd::string::StringExecFns;

use crate::shared::dates::{parse_date, spec_parsed_date, Date};
use crate::shared::errors::DecodeError;
use crate::shared::strutil::str_eq;

verus! {

/// The release token decodes: either the all-zero sentinel or a date in
/// the source's two-digit-year format.
pub open spec fn spec_release_ok(s: Seq<char>) -> bool {
    s == "000000"@ || spec_parsed_date("%y%m%d"@, s) is Some
}

/// The date a valid release token stands for; the all-zero sentinel is an
/// absent date.
pub open spec fn spec_release_value(s: Seq<char>) -> Option<Date> {
    if s == "000000"@ {
        Option::None
    } else {
        spec_parsed_date("%y%m%d"@, s)
    }
}

/// Decode a release-date token: the all-zero sentinel means absent, any
/// other token must parse as a six-digit date.
pub(crate) fn deserialize_date(s: &str) -> (r: Result<Option<Date>, DecodeError>)
    ensures
        r is Ok <==> spec_release_ok(s@),
        r matches Ok(d) ==> d == spec_release_value(s@),
        r matches Err(e) ==> (e matches DecodeError::BadDate(t) && t@ == s@),
{
    if str_eq(s, "000000") {
        Ok(Option::None)
    } else {
        match parse_date("%y%m%d", s) {
            Option::Some(d) => Ok(Option::Some(d)),
            Option::None => Err(DecodeError::BadDate(String::from_str(s))),
        }
    }
}

} // verus!
