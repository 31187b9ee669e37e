use vstd::prelude::*;

verus! {

#[verifier::external_type_specification]
#[verifier::external_body]
pub struct ExParseIntError(core::num::ParseIntError);

/// A decimal digit character.
pub open spec fn is_digit(c: char) -> bool {
    48 <= (c as int) <= 57
}

/// Value of a run of decimal digits.
pub open spec fn digits_value(t: Seq<char>) -> int
    decreases t.len(),
{
    if t.len() == 0 {
        0
    } else {
        digits_value(t.drop_last()) * 10 + ((t.last() as int) - 48)
    }
}

/// The value of an unsigned decimal numeral: an optional `+` followed by at
/// least one digit and nothing else.
pub open spec fn unsigned_numeral(t: Seq<char>) -> Option<int> {
    let d = if t.len() > 0 && t[0] == '+' { t.drop_first() } else { t };
    if d.len() > 0 && forall|i: int| 0 <= i < d.len() ==> is_digit(#[trigger] d[i]) {
        Some(digits_value(d))
    } else {
        None
    }
}

/// Wraps `usize::from_str`: as its documentation states, it accepts an
/// optional `+` followed by decimal digits only, and fails when the value
/// exceeds `usize::MAX`. The error value's kind is not stated.
#[verifier::external_body]
pub(crate) fn parse_usize(t: &str) -> (r: Result<usize, core::num::ParseIntError>)
    ensures
        r is Ok <==> (unsigned_numeral(t@) matches Some(v) && v <= usize::MAX),
        r matches Ok(v) ==> unsigned_numeral(t@) == Some(v as int),
{
    t.parse::<usize>()
}

/// Wraps `u64::from_str`: as its documentation states, it accepts an
/// optional `+` followed by decimal digits only, and fails when the value
/// exceeds `u64::MAX`. The error value's kind is not stated.
#[verifier::external_body]
pub(crate) fn parse_u64(t: &str) -> (r: Result<u64, core::num::ParseIntError>)
    ensures
        r is Ok <==> (unsigned_numeral(t@) matches Some(v) && v <= u64::MAX),
        r matches Ok(v) ==> unsigned_numeral(t@) == Some(v as int),
{
    t.parse::<u64>()
}

} // verus!
