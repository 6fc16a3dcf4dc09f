//! Country codes and their normal form.
//!
//! A country code is written in any case by callers and kept in upper case by
//! the registry. Two spellings name the same country when their upper-case
//! forms are equal.

use vstd::prelude::*;

verus! {

/// The string that `str::to_uppercase` gives for the string `s`.
pub uninterp spec fn uppercase_of(s: Seq<char>) -> Seq<char>;

/// `str::to_uppercase` of the standard library. Its result is determined by
/// the characters of its argument alone, by the upper-case mapping of Unicode;
/// that result is what [`uppercase_of`] names.
pub assume_specification[ str::to_uppercase ](s: &str) -> (upper: String)
    ensures
        upper@ == uppercase_of(s@),
;

/// Two spellings of a country code name the same country.
pub open spec fn same_country(a: Seq<char>, b: Seq<char>) -> bool {
    uppercase_of(a) == uppercase_of(b)
}

/// A code is in normal form when it is the upper-case form of some spelling.
pub open spec fn is_normal(code: Seq<char>) -> bool {
    exists|spelling: Seq<char>| #[trigger] uppercase_of(spelling) == code
}

/// The normal form of a country code: its upper-case form.
pub fn normalize(country: &str) -> (code: String)
    ensures
        code@ == uppercase_of(country@),
        is_normal(code@),
{
    country.to_uppercase()
}

} // verus!
