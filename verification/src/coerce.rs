//! Scalar coercion: from a document node to an optional unsigned 64-bit
//! integer.
//!
//! Address-valued fields additionally accept the case-insensitive string
//! "auto", which decodes to "unspecified". A number supplied as a signed
//! integer is reinterpreted bit-for-bit as unsigned, a deliberate
//! trust-the-author policy.

use vstd::prelude::*;

use crate::error::DecodeError;
use crate::value::{Value, ValueView, YamlNum};

verus! {

/// The case-insensitive sentinel string that means "choose the address
/// automatically", as a predicate on character sequences.
///
/// Only the ASCII letters fold here: no other character lowercases to any of
/// 'a', 'u', 't' or 'o', so this matches a full Unicode lowercasing of the
/// string compared against "auto".
pub open spec fn is_auto_chars(s: Seq<char>) -> bool {
    &&& s.len() == 4
    &&& (s[0] == 'a' || s[0] == 'A')
    &&& (s[1] == 'u' || s[1] == 'U')
    &&& (s[2] == 't' || s[2] == 'T')
    &&& (s[3] == 'o' || s[3] == 'O')
}

/// Decides whether a string is the "auto" placement sentinel, compared
/// without regard to case.
pub fn is_auto_str(s: &str) -> (r: bool)
    ensures
        r == is_auto_chars(s@),
{
    if s.unicode_len() != 4 {
        return false;
    }
    let c0 = s.get_char(0);
    let c1 = s.get_char(1);
    let c2 = s.get_char(2);
    let c3 = s.get_char(3);
    (c0 == 'a' || c0 == 'A') && (c1 == 'u' || c1 == 'U') && (c2 == 't' || c2 == 'T') && (c3 == 'o'
        || c3 == 'O')
}

/// What `parse_address` returns: a number decodes to itself (a signed one
/// reinterpreted as unsigned), the "auto" sentinel to "unspecified", and
/// everything else is an invalid address.
pub open spec fn spec_parse_address(v: ValueView) -> Result<Option<u64>, DecodeError> {
    match v {
        ValueView::Num(YamlNum::UInt(n)) => Ok(Some(n)),
        ValueView::Num(YamlNum::Int(i)) => Ok(Some(i as u64)),
        ValueView::Str(s) => if is_auto_chars(s) {
            Ok(None)
        } else {
            Err(DecodeError::InvalidAddress)
        },
        _ => Err(DecodeError::InvalidAddress),
    }
}

/// What `parse_number` returns: as `parse_address`, but with no sentinel —
/// "auto" is a placement concept, meaningless for sizes and alignments.
pub open spec fn spec_parse_number(v: ValueView) -> Result<Option<u64>, DecodeError> {
    match v {
        ValueView::Num(YamlNum::UInt(n)) => Ok(Some(n)),
        ValueView::Num(YamlNum::Int(i)) => Ok(Some(i as u64)),
        _ => Err(DecodeError::InvalidNumber),
    }
}

/// Coerces an address-valued node: a number, or the case-insensitive string
/// "auto" for "unspecified"; anything else is an error.
pub fn parse_address(value: &Value) -> (r: Result<Option<u64>, DecodeError>)
    ensures
        r == spec_parse_address(value@),
{
    match value {
        Value::Num(YamlNum::UInt(n)) => Ok(Some(*n)),
        Value::Num(YamlNum::Int(i)) => Ok(Some(#[verifier::truncate] (*i as u64))),
        Value::Str(s) => if is_auto_str(s.as_str()) {
            Ok(None)
        } else {
            Err(DecodeError::InvalidAddress)
        },
        _ => Err(DecodeError::InvalidAddress),
    }
}

/// Coerces a numeric node: a number or nothing; no string is accepted.
pub fn parse_number(value: &Value) -> (r: Result<Option<u64>, DecodeError>)
    ensures
        r == spec_parse_number(value@),
{
    match value {
        Value::Num(YamlNum::UInt(n)) => Ok(Some(*n)),
        Value::Num(YamlNum::Int(i)) => Ok(Some(#[verifier::truncate] (*i as u64))),
        _ => Err(DecodeError::InvalidNumber),
    }
}

} // verus!
