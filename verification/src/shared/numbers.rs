//! Decimal digit strings parsed into machine words.

use vstd::prelude::*;
use vstd::string::StringExecFns;

use crate::shared::errors::DecodeError;

verus! {

/// A decimal digit.
pub open spec fn spec_is_digit(c: char) -> bool {
    48 <= c as u32 && c as u32 <= 57
}

/// The digit's numeric value.
pub open spec fn spec_digit_val(c: char) -> int {
    c as u32 - 48
}

/// Every character is a decimal digit.
pub open spec fn spec_all_digits(s: Seq<char>) -> bool {
    forall|i: int| 0 <= i < s.len() ==> spec_is_digit(#[trigger] s[i])
}

/// The number the digit string denotes.
pub open spec fn spec_decimal_value(s: Seq<char>) -> int
    decreases s.len(),
{
    if s.len() == 0 {
        0
    } else {
        spec_decimal_value(s.drop_last()) * 10 + spec_digit_val(s.last())
    }
}

proof fn lemma_decimal_nonneg(s: Seq<char>)
    requires
        spec_all_digits(s),
    ensures
        spec_decimal_value(s) >= 0,
    decreases s.len(),
{
    if s.len() > 0 {
        assert(spec_all_digits(s.drop_last()));
        lemma_decimal_nonneg(s.drop_last());
    }
}

/// A digit string is worth at least any of its prefixes.
proof fn lemma_decimal_prefix_le(s: Seq<char>, i: int)
    requires
        spec_all_digits(s),
        0 <= i <= s.len(),
    ensures
        spec_decimal_value(s.take(i)) <= spec_decimal_value(s),
    decreases s.len() - i,
{
    if i == s.len() {
        assert(s.take(i) =~= s);
    } else {
        assert(s.take(i + 1).drop_last() =~= s.take(i));
        assert(spec_all_digits(s.take(i)));
        lemma_decimal_nonneg(s.take(i));
        assert(spec_decimal_value(s.take(i + 1)) == spec_decimal_value(s.take(i)) * 10
            + spec_digit_val(s.take(i + 1).last()));
        lemma_decimal_prefix_le(s, i + 1);
    }
}

/// Parse a non-empty decimal digit string into a machine word.
pub fn parse_usize(s: &str) -> (r: Result<usize, DecodeError>)
    ensures
        r is Ok <==> (s@.len() > 0 && spec_all_digits(s@) && spec_decimal_value(s@)
            <= usize::MAX),
        r matches Ok(v) ==> v == spec_decimal_value(s@),
        r matches Err(e) ==> (e matches DecodeError::BadNumber(t) && t@ == s@),
{
    let n = s.unicode_len();
    if n == 0 {
        return Err(DecodeError::BadNumber(String::from_str(s)));
    }
    let mut acc: usize = 0;
    for i in 0..n
        invariant
            n == s@.len(),
            spec_all_digits(s@.take(i as int)),
            acc == spec_decimal_value(s@.take(i as int)),
    {
        let c = s.get_char(i);
        let d = c as u32;
        if d < 48 || d > 57 {
            proof {
                assert(!spec_is_digit(s@[i as int]));
            }
            return Err(DecodeError::BadNumber(String::from_str(s)));
        }
        let dv = (d - 48) as usize;
        let wide: u128 = (acc as u128) * 10 + (dv as u128);
        proof {
            assert(s@.take(i + 1).drop_last() =~= s@.take(i as int));
            assert(s@.take(i + 1).last() == s@[i as int]);
            assert(spec_decimal_value(s@.take(i + 1)) == acc * 10 + dv);
        }
        if wide > (usize::MAX as u128) {
            proof {
                if spec_all_digits(s@) {
                    lemma_decimal_prefix_le(s@, i + 1);
                }
            }
            return Err(DecodeError::BadNumber(String::from_str(s)));
        }
        acc = wide as usize;
    }
    proof {
        assert(s@.take(n as int) =~= s@);
    }
    Ok(acc)
}


} // verus!
