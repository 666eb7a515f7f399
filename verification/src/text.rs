//! String helpers: verified equality of string slices, and specifications
//! for the two std string facilities the domain models rely on — whitespace
//! trimming and the Unicode alphanumeric test.

use vstd::prelude::*;

verus! {

/// Equality of two string slices, stated over their character sequences.
pub fn str_eq(a: &str, b: &str) -> (r: bool)
    ensures
        r == (a@ == b@),
{
    a.to_owned().eq(&b.to_owned())
}

/// What `str::trim` returns: the string without leading and trailing
/// whitespace.
pub uninterp spec fn trimmed_of(s: Seq<char>) -> Seq<char>;

/// Relies on `str::trim`: the result depends on the characters alone, and —
/// having no leading or trailing whitespace left — trimming it again changes
/// nothing.
pub assume_specification[ str::trim ](s: &str) -> (r: &str)
    ensures
        r@ == trimmed_of(s@),
        trimmed_of(r@) == r@,
;

/// What `char::is_alphanumeric` returns: whether the character is Unicode
/// alphabetic or numeric.
pub uninterp spec fn is_alphanumeric_char(c: char) -> bool;

/// Relies on `char::is_alphanumeric`: the answer depends on the character
/// alone.
pub assume_specification[ char::is_alphanumeric ](c: char) -> (r: bool)
    ensures
        r == is_alphanumeric_char(c),
;

} // verus!
