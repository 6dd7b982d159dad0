//! The decorator capability: conditionally mutate blocks in a quad, given a
//! target position and a pseudo-random stream.

use vstd::prelude::*;
use crate::matcher::eq_exact;
use crate::quad::{Quad, QuadPosition};

verus! {

/// Why a decoration call failed. Boundary conditions (an offset leaving the
/// quad, a missing neighbor) are valid outcomes, never errors; the only
/// reported failure is malformed configuration.
#[derive(Clone, Copy, PartialEq, Eq, Structural, Debug)]
pub enum DecoratorError {
    InvalidConfiguration,
}

/// A pluggable algorithm that conditionally places blocks into a quad.
/// A call is synchronous; writes take effect immediately, so later reads in
/// the same call observe earlier writes. The featureless outcome (no block
/// placed) is a valid success, not a failure.
pub trait Decorator<B: Copy + PartialEq> {
    fn generate(
        &self,
        quad: &mut Quad<B>,
        rng: &mut java_rand::Random,
        position: QuadPosition,
    ) -> (r: Result<(), DecoratorError>)
        requires
            eq_exact::<B>(),
            old(quad).wf(),
            position.valid(),
        ensures
            final(quad).wf(),
    ;
}

} // verus!
