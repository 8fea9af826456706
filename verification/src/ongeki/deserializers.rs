//! The ONGEKI field decoders: the dash sentinel and the release date.

use vstd::prelude::*;
use vstd::string::StringExecFns;

use crate::shared::dates::{parse_date, spec_parsed_date, Date};
use crate::shared::errors::DecodeError;
use crate::shared::strutil::str_eq;

verus! {

/// Collapse an absent value or a lone dash to `None`; keep anything else.
pub fn dash_string_as_none(s: Option<String>) -> (r: Option<String>)
    ensures
        r is Some <==> (s matches Some(x) && x@ != "-"@),
        r matches Some(y) ==> s == Some(y),
{
    match s {
        Option::None => Option::None,
        Option::Some(x) => {
            if str_eq(x.as_str(), "-") {
                Option::None
            } else {
                Option::Some(x)
            }
        },
    }
}

/// The date token decodes in the source's four-digit-year format.
pub open spec fn spec_date_ok(s: Seq<char>) -> bool {
    spec_parsed_date("%Y%m%d"@, s) is Some
}

/// Decode a release-date token; every song carries one.
pub fn deserialize_date(s: &str) -> (r: Result<Date, DecodeError>)
    ensures
        r is Ok <==> spec_date_ok(s@),
        r matches Ok(d) ==> Option::Some(d) == spec_parsed_date("%Y%m%d"@, s@),
        r matches Err(e) ==> (e matches DecodeError::BadDate(t) && t@ == s@),
{
    match parse_date("%Y%m%d", s) {
        Option::Some(d) => Ok(d),
        Option::None => Err(DecodeError::BadDate(String::from_str(s))),
    }
}

} // verus!
