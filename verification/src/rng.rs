//! The one randomness primitive the library draws from outside.
use vstd::prelude::*;

verus! {

/// Relies on `rand::random_range` over `0..n`: it returns a value of
/// that range from the thread-local generator, and panics only on an
/// empty range, which the precondition rules out. Nothing more is
/// assumed of the draw.
#[verifier::external_body]
pub(crate) fn random_below(n: usize) -> (r: usize)
    requires
        n >= 1,
    ensures
        r < n,
{
    rand::random_range(0..n)
}

} // verus!
