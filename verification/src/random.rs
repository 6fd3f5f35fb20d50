//! Random identifiers, drawn through `rand`.
use vstd::prelude::*;
use rand::RngExt;

verus! {

/// Calls `rand::rng().random_range(1..=u32::MAX)`: a random value in `1..=u32::MAX`,
/// as rand documents for `random_range` on an inclusive range. `rand::rng()`
/// panics when the operating system's random source fails; no argument can rule
/// that out.
#[verifier::external_body]
pub(crate) fn random_id() -> (r: u32)
    ensures
        r >= 1,
{
    rand::rng().random_range(1..=u32::MAX)
}

} // verus!
