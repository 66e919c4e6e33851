//! Text comparison for the rest of the crate.

use vstd::prelude::*;

verus! {

/// `==` on `str`: true exactly when both slices hold the same characters.
///
/// Trusted: the standard library compares the two slices byte by byte, and two
/// UTF-8 strings have the same bytes exactly when they have the same characters.
#[verifier::external_body]
pub(crate) fn same_text(a: &str, b: &str) -> (res: bool)
    ensures
        res == (a@ == b@),
{
    a == b
}

} // verus!
