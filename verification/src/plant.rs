//! Single-block conditional placement: the plant decorator.

use vstd::prelude::*;
use crate::decorator::{Decorator, DecoratorError};
use crate::matcher::{eq_exact, BlockMatcher};
use crate::quad::{block_at, pos_index, spec_offset, Dir, Quad, QuadPosition};

verus! {

/// A decorator placing a single block: the target cell must match `replace`
/// and the cell directly below must exist and match `base`. No randomness is
/// consumed; the stream is accepted only for interface uniformity. This is
/// deliberately the minimal decorator: no loop, no neighbor checks.
pub struct PlantDecorator<B> {
    /// The block identity written on success.
    pub block: B,
    /// What must be directly below the target (typically ground).
    pub base: BlockMatcher<B>,
    /// What the target cell must currently be (typically air).
    pub replace: BlockMatcher<B>,
}

/// Whether the plant may be placed at `position` in quad contents `q`: the
/// target matches `replace`, the cell below exists, and it matches `base`.
pub open spec fn spec_plant_allowed<B: Copy + PartialEq>(
    q: Seq<B>,
    plant: PlantDecorator<B>,
    position: QuadPosition,
) -> bool {
    &&& plant.replace.spec_matches(block_at(q, position))
    &&& match spec_offset(position, Dir::Down) {
        Some(below) => plant.base.spec_matches(block_at(q, below)),
        None => false,
    }
}

/// The quad contents after one plant placement attempt: the configured block
/// written exactly at the target when placement is allowed, and the contents
/// unchanged otherwise.
pub open spec fn spec_plant<B: Copy + PartialEq>(
    q: Seq<B>,
    plant: PlantDecorator<B>,
    position: QuadPosition,
) -> Seq<B> {
    if spec_plant_allowed(q, plant, position) {
        q.update(pos_index(position), plant.block)
    } else {
        q
    }
}

impl<B: Copy + PartialEq> PlantDecorator<B> {
    /// Attempt one placement at `position`, exactly as `spec_plant` describes.
    /// Every outcome is a success: a target that does not match `replace`, or
    /// ground that is missing or does not match `base`, leaves the quad
    /// unchanged.
    pub fn generate(
        &self,
        quad: &mut Quad<B>,
        _rng: &mut java_rand::Random,
        position: QuadPosition,
    ) -> (r: Result<(), DecoratorError>)
        requires
            eq_exact::<B>(),
            old(quad).wf(),
            position.valid(),
        ensures
            final(quad).wf(),
            final(quad)@ == spec_plant(old(quad)@, *self, position),
            r == Ok::<(), DecoratorError>(()),
    {
        if !self.replace.matches(&quad.get(position)) {
            return Ok(());
        }
        match position.offset(Dir::Down) {
            Some(below) => {
                if !self.base.matches(&quad.get(below)) {
                    return Ok(());
                }
            },
            None => {
                return Ok(());
            },
        }
        quad.set_immediate(position, &self.block);
        Ok(())
    }
}

impl<B: Copy + PartialEq> Decorator<B> for PlantDecorator<B> {
    fn generate(
        &self,
        quad: &mut Quad<B>,
        rng: &mut java_rand::Random,
        position: QuadPosition,
    ) -> (r: Result<(), DecoratorError>) {
        PlantDecorator::generate(self, quad, rng, position)
    }
}

} // verus!
