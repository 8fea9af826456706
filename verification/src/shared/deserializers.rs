//! Decoders for the sentinel conventions shared by several sources.
//!
//! Each source encodes booleans and absent values with its own tokens; these
//! functions collapse them into canonical `bool` / `Option` values.  An
//! unrecognized token is a decode error, never a silent default.

use vstd::prelude::*;
use vstd::string::StringExecFns;

use crate::shared::errors::DecodeError;
use crate::shared::strutil::str_eq;

verus! {

/// The tokens `bool_from_string` accepts.
pub open spec fn spec_bool_token_ok(s: Seq<char>) -> bool {
    s == "1"@ || s == "NEW"@ || s == "0"@ || s == ""@
}

/// The boolean a valid `bool_from_string` token stands for.
pub open spec fn spec_bool_token_value(s: Seq<char>) -> bool {
    s == "1"@ || s == "NEW"@
}

/// Decode a boolean encoded as `"1"`/`"NEW"` (true) or `"0"`/`""` (false).
pub fn bool_from_string(s: &str) -> (r: Result<bool, DecodeError>)
    ensures
        r is Ok <==> spec_bool_token_ok(s@),
        r matches Ok(b) ==> b == spec_bool_token_value(s@),
        r matches Err(e) ==> (e matches DecodeError::UnknownBoolToken(t) && t@ == s@),
{
    if str_eq(s, "1") || str_eq(s, "NEW") {
        Ok(true)
    } else if str_eq(s, "0") || str_eq(s, "") {
        Ok(false)
    } else {
        Err(DecodeError::UnknownBoolToken(String::from_str(s)))
    }
}

/// The optional tokens `bool_from_option_string` accepts.
pub open spec fn spec_opt_bool_token_ok(s: Option<String>) -> bool {
    match s {
        Option::None => true,
        Option::Some(x) => x@ == "NEW"@ || x@ == "○"@,
    }
}

/// Decode a boolean encoded as an optional token: `"NEW"` or a checkmark
/// glyph means true, an absent value means false.  Any present token other
/// than those two is a decode error.
pub fn bool_from_option_string(s: &Option<String>) -> (r: Result<bool, DecodeError>)
    ensures
        r is Ok <==> spec_opt_bool_token_ok(*s),
        r matches Ok(b) ==> b == (s matches Some(x) && (x@ == "NEW"@ || x@ == "○"@)),
        r matches Err(e) ==> (e matches DecodeError::UnknownBoolToken(t)
            && s matches Some(x) && t@ == x@),
{
    match s {
        Option::None => Ok(false),
        Option::Some(x) => {
            if str_eq(x.as_str(), "NEW") || str_eq(x.as_str(), "○") {
                Ok(true)
            } else {
                Err(DecodeError::UnknownBoolToken(x.clone()))
            }
        },
    }
}

/// Collapse an absent or empty string to `None`; keep anything else.
pub fn empty_string_as_none(s: Option<String>) -> (r: Option<String>)
    ensures
        r is Some <==> (s matches Some(x) && x@.len() > 0),
        r matches Some(y) ==> s == Some(y),
{
    match s {
        Option::None => Option::None,
        Option::Some(x) => {
            if x.as_str().is_empty() {
                Option::None
            } else {
                Option::Some(x)
            }
        },
    }
}

} // verus!
