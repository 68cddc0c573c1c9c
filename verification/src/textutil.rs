//! Small trusted helpers over `str` and `String` for which vstd carries no
//! specification.

use vstd::prelude::*;

verus! {

/// Relies on `str`'s `PartialEq`: string slices are equal exactly when
/// their character sequences are.
#[verifier::external_body]
pub(crate) fn str_eq(a: &str, b: &str) -> (r: bool)
    ensures
        r == (a@ == b@),
{
    a == b
}

/// Relies on `String::push_str`: appends the given slice onto the end of
/// the string.
#[verifier::external_body]
pub(crate) fn append_str(s: &mut String, tail: &str)
    ensures
        final(s)@ == old(s)@ + tail@,
{
    s.push_str(tail)
}

} // verus!
