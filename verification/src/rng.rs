//! Trusted interface to the injected pseudo-random stream.
//!
//! The stream's internal algorithm is outside this library: decorators consume
//! it only through a bounded draw. Nothing is assumed of the values drawn
//! beyond their range, so every contract downstream holds whatever the stream
//! produces.

use vstd::prelude::*;

verus! {

#[verifier::external_type_specification]
#[verifier::external_body]
pub struct ExRandom(java_rand::Random);

/// Relies on `java_rand::Random::next_u32_bound`: for `1 <= max < 2^31` it
/// draws a value in `[0, max)`; a maximum outside that range panics, so it is
/// excluded here. Nothing is claimed of the stream's new state.
pub assume_specification[ java_rand::Random::next_u32_bound ](
    rng: &mut java_rand::Random,
    max: u32,
) -> (r: u32)
    requires
        1 <= max < 0x8000_0000u32,
    ensures
        r < max,
;

} // verus!
