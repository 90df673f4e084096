//! Small string utilities shared across the crate.

use vstd::prelude::*;

verus! {

/// Relies on `str::eq` (the `PartialEq` impl for `str` in core):
/// two string slices compare equal exactly when their characters do.
#[verifier::external_body]
pub fn str_eq(a: &str, b: &str) -> (r: bool)
    ensures
        r == (a@ == b@),
{
    a == b
}

} // verus!
