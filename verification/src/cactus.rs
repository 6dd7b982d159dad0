//! Randomized vertical clump growth: the cactus decorator.

use vstd::prelude::*;
use crate::decorator::{Decorator, DecoratorError};
use crate::matcher::{eq_exact, BlockMatcher};
use crate::quad::{
    block_at, lemma_pos_index_in_range, lemma_pos_index_injective, pos_index, spec_offset, Dir,
    Quad, QuadPosition, QUAD_HEIGHT, QUAD_VOLUME,
};

verus! {

/// The block configuration of a cactus clump: what may be overwritten, what a
/// cactus may stand on, what disqualifies a cell by standing beside it, and
/// the block identity written.
pub struct CactusBlocks<B> {
    /// What a grown cell may overwrite (typically air).
    pub replace: BlockMatcher<B>,
    /// What a cactus may stand on (typically sand, or cactus itself).
    pub base: BlockMatcher<B>,
    /// What disallows a cell by being one of its four horizontal neighbors.
    pub solid: BlockMatcher<B>,
    /// The block identity written for each grown cell.
    pub block: B,
}

/// Two non-negative integers governing clump height: `base_height` is the
/// minimum, `add_height` the maximum extra on top of it.
pub struct CactusSettings {
    /// Base, minimum height of a cactus.
    pub base_height: u32,
    /// Maximum height of a cactus when added to the base height.
    /// For example, with base 1 and add 2, a cactus can be 1 to 3 blocks tall.
    pub add_height: u32,
}

/// A decorator growing randomized vertical cactus clumps with per-level
/// neighbor validation.
pub struct CactusDecorator<B> {
    pub blocks: CactusBlocks<B>,
    pub settings: CactusSettings,
}

impl CactusSettings {
    /// Heights these settings ask for can be drawn and summed without
    /// overflowing the bounded draw or a `u32`.
    pub open spec fn valid(self) -> bool {
        &&& self.add_height <= 0x7fff_fffe
        &&& self.base_height + self.add_height <= u32::MAX
    }
}

impl Default for CactusSettings {
    /// The default clump: heights 1 to 3 inclusive.
    fn default() -> (r: Self)
        ensures
            r.base_height == 1,
            r.add_height == 2,
    {
        CactusSettings { base_height: 1, add_height: 2 }
    }
}

/// Whether direction `d` out of `position` is free of blocking material in
/// quad contents `q`: the neighbor either lies outside the quad (absence never
/// blocks) or does not match `solid`.
pub open spec fn neighbor_clear<B: Copy + PartialEq>(
    q: Seq<B>,
    blocks: CactusBlocks<B>,
    position: QuadPosition,
    d: Dir,
) -> bool {
    match spec_offset(position, d) {
        Some(n) => !blocks.solid.spec_matches(block_at(q, n)),
        None => true,
    }
}

/// The placement check at a candidate cell: the cell must match `replace`,
/// none of its four existing horizontal neighbors may match `solid`, the cell
/// directly below must exist, and that cell must match `base`.
pub open spec fn spec_check<B: Copy + PartialEq>(
    q: Seq<B>,
    blocks: CactusBlocks<B>,
    position: QuadPosition,
) -> bool {
    &&& blocks.replace.spec_matches(block_at(q, position))
    &&& neighbor_clear(q, blocks, position, Dir::MinusX)
    &&& neighbor_clear(q, blocks, position, Dir::PlusX)
    &&& neighbor_clear(q, blocks, position, Dir::MinusZ)
    &&& neighbor_clear(q, blocks, position, Dir::PlusZ)
    &&& match spec_offset(position, Dir::Down) {
        Some(below) => blocks.base.spec_matches(block_at(q, below)),
        None => false,
    }
}

/// The quad contents after `levels` growth steps from `position` upward: each
/// step advances one cell up, stops silently at the quad's top boundary, and
/// writes the cactus block exactly where the placement check passes. A failed
/// level is skipped, and growth continues to the next level regardless.
pub open spec fn spec_grow<B: Copy + PartialEq>(
    q: Seq<B>,
    blocks: CactusBlocks<B>,
    position: QuadPosition,
    levels: nat,
) -> Seq<B>
    decreases levels,
{
    if levels == 0 {
        q
    } else {
        match spec_offset(position, Dir::Up) {
            None => q,
            Some(above) => {
                let stepped = if spec_check(q, blocks, above) {
                    q.update(pos_index(above), blocks.block)
                } else {
                    q
                };
                spec_grow(stepped, blocks, above, (levels - 1) as nat)
            },
        }
    }
}

impl<B: Copy + PartialEq> CactusBlocks<B> {
    /// Run the placement check at a candidate position.
    pub fn check(&self, quad: &Quad<B>, position: QuadPosition) -> (r: bool)
        requires
            eq_exact::<B>(),
            quad.wf(),
            position.valid(),
        ensures
            r == spec_check(quad@, *self, position),
    {
        if !self.replace.matches(&quad.get(position)) {
            return false;
        }
        if let Some(minus_x) = position.offset(Dir::MinusX) {
            if self.solid.matches(&quad.get(minus_x)) {
                return false;
            }
        }
        if let Some(plus_x) = position.offset(Dir::PlusX) {
            if self.solid.matches(&quad.get(plus_x)) {
                return false;
            }
        }
        if let Some(minus_z) = position.offset(Dir::MinusZ) {
            if self.solid.matches(&quad.get(minus_z)) {
                return false;
            }
        }
        if let Some(plus_z) = position.offset(Dir::PlusZ) {
            if self.solid.matches(&quad.get(plus_z)) {
                return false;
            }
        }
        let below = match position.offset(Dir::Down) {
            Some(below) => below,
            None => {
                return false;
            },
        };
        self.base.matches(&quad.get(below))
    }
}

impl<B: Copy + PartialEq> CactusDecorator<B> {
    /// Grow a clump of the given height from `position` upward, exactly as
    /// `spec_grow` describes: stop silently at the top boundary, keep what was
    /// placed below it, and skip failed levels without stopping.
    pub fn generate_with_height(&self, quad: &mut Quad<B>, position: QuadPosition, height: u32)
        requires
            eq_exact::<B>(),
            old(quad).wf(),
            position.valid(),
        ensures
            final(quad).wf(),
            final(quad)@ == spec_grow(old(quad)@, self.blocks, position, height as nat),
    {
        let mut pos = position;
        let mut i: u32 = 0;
        while i < height
            invariant
                eq_exact::<B>(),
                quad.wf(),
                pos.valid(),
                i <= height,
                spec_grow(old(quad)@, self.blocks, position, height as nat) == spec_grow(
                    quad@,
                    self.blocks,
                    pos,
                    (height - i) as nat,
                ),
            decreases height - i,
        {
            let above = match pos.offset(Dir::Up) {
                Some(above) => above,
                None => {
                    assert(spec_grow(quad@, self.blocks, pos, (height - i) as nat) == quad@);
                    return;
                },
            };
            let ghost before = quad@;
            if self.blocks.check(quad, above) {
                quad.set_immediate(above, &self.blocks.block);
            }
            assert(spec_grow(before, self.blocks, pos, (height - i) as nat) == spec_grow(
                quad@,
                self.blocks,
                above,
                (height - i - 1) as nat,
            ));
            pos = above;
            i = i + 1;
        }
    }

    /// Grow a cactus clump at `position`. A no-op success when the origin does
    /// not match `replace`; a reported failure only for settings whose height
    /// arithmetic cannot be carried out. Otherwise the height is drawn in two
    /// stages — an extra bounded by `add_height`, then a level count bounded
    /// by that extra, added to `base_height` — which biases toward shorter
    /// clumps, and the clump grows exactly as `spec_grow` describes.
    pub fn generate(
        &self,
        quad: &mut Quad<B>,
        rng: &mut java_rand::Random,
        position: QuadPosition,
    ) -> (r: Result<(), DecoratorError>)
        requires
            eq_exact::<B>(),
            old(quad).wf(),
            position.valid(),
        ensures
            final(quad).wf(),
            !self.blocks.replace.spec_matches(block_at(old(quad)@, position)) ==> r == Ok::<
                (),
                DecoratorError,
            >(()) && final(quad)@ == old(quad)@,
            self.blocks.replace.spec_matches(block_at(old(quad)@, position))
                && !self.settings.valid() ==> r == Err::<(), DecoratorError>(
                DecoratorError::InvalidConfiguration,
            ) && final(quad)@ == old(quad)@,
            self.blocks.replace.spec_matches(block_at(old(quad)@, position))
                && self.settings.valid() ==> r == Ok::<(), DecoratorError>(()) && exists|
                height: nat,
            |
                self.settings.base_height <= height <= self.settings.base_height
                    + self.settings.add_height && final(quad)@ == #[trigger] spec_grow(
                    old(quad)@,
                    self.blocks,
                    position,
                    height,
                ),
    {
        if !self.blocks.replace.matches(&quad.get(position)) {
            return Ok(());
        }
        if self.settings.add_height > 0x7fff_fffe || self.settings.base_height > u32::MAX
            - self.settings.add_height {
            return Err(DecoratorError::InvalidConfiguration);
        }
        let extra = rng.next_u32_bound(self.settings.add_height + 1);
        let drawn = rng.next_u32_bound(extra + 1);
        let height = self.settings.base_height + drawn;
        self.generate_with_height(quad, position, height);
        Ok(())
    }
}

impl<B: Copy + PartialEq> Decorator<B> for CactusDecorator<B> {
    fn generate(
        &self,
        quad: &mut Quad<B>,
        rng: &mut java_rand::Random,
        position: QuadPosition,
    ) -> (r: Result<(), DecoratorError>) {
        CactusDecorator::generate(self, quad, rng, position)
    }
}

/// Law: growth only ever writes strictly above its origin in the same column;
/// every cell outside that column segment keeps its block.
pub proof fn lemma_grow_frame<B: Copy + PartialEq>(
    q: Seq<B>,
    blocks: CactusBlocks<B>,
    position: QuadPosition,
    levels: nat,
    cell: QuadPosition,
)
    requires
        position.valid(),
        cell.valid(),
        q.len() == QUAD_VOLUME,
        !(cell.x == position.x && cell.z == position.z && cell.y > position.y),
    ensures
        block_at(spec_grow(q, blocks, position, levels), cell) == block_at(q, cell),
    decreases levels,
{
    if levels > 0 {
        match spec_offset(position, Dir::Up) {
            None => {},
            Some(above) => {
                lemma_pos_index_in_range(above);
                lemma_pos_index_in_range(cell);
                lemma_pos_index_injective(above, cell);
                let stepped = if spec_check(q, blocks, above) {
                    q.update(pos_index(above), blocks.block)
                } else {
                    q
                };
                lemma_grow_frame(stepped, blocks, above, (levels - 1) as nat, cell);
            },
        }
    }
}

/// Law: a candidate cell in the growth column with a horizontal neighbor that
/// matches `solid` never receives a block, even if the level below it matches
/// `base`: the neighbor lies outside the column, so growth never changes it,
/// and the placement check at that cell therefore always fails.
pub proof fn lemma_solid_neighbor_never_placed<B: Copy + PartialEq>(
    q: Seq<B>,
    blocks: CactusBlocks<B>,
    position: QuadPosition,
    levels: nat,
    cell: QuadPosition,
    d: Dir,
)
    requires
        position.valid(),
        cell.valid(),
        q.len() == QUAD_VOLUME,
        cell.x == position.x,
        cell.z == position.z,
        cell.y > position.y,
        d.is_horizontal(),
        spec_offset(cell, d) is Some,
        blocks.solid.spec_matches(block_at(q, spec_offset(cell, d)->Some_0)),
    ensures
        block_at(spec_grow(q, blocks, position, levels), cell) == block_at(q, cell),
    decreases levels,
{
    if levels > 0 {
        match spec_offset(position, Dir::Up) {
            None => {},
            Some(above) => {
                let nb = spec_offset(cell, d)->Some_0;
                assert(nb.valid());
                assert(above != nb);
                if above == cell {
                    assert(!neighbor_clear(q, blocks, cell, d));
                    assert(!spec_check(q, blocks, above));
                    lemma_grow_frame(q, blocks, above, (levels - 1) as nat, cell);
                } else {
                    lemma_pos_index_in_range(above);
                    lemma_pos_index_in_range(cell);
                    lemma_pos_index_in_range(nb);
                    lemma_pos_index_injective(above, cell);
                    lemma_pos_index_injective(above, nb);
                    let stepped = if spec_check(q, blocks, above) {
                        q.update(pos_index(above), blocks.block)
                    } else {
                        q
                    };
                    lemma_solid_neighbor_never_placed(
                        stepped,
                        blocks,
                        above,
                        (levels - 1) as nat,
                        cell,
                        d,
                    );
                }
            },
        }
    }
}

/// Law: a growth path that has reached the quad's top boundary stops
/// silently: however many levels remain, nothing further changes.
pub proof fn lemma_grow_stops_at_boundary<B: Copy + PartialEq>(
    q: Seq<B>,
    blocks: CactusBlocks<B>,
    position: QuadPosition,
    levels: nat,
)
    requires
        position.y + 1 >= QUAD_HEIGHT,
    ensures
        spec_grow(q, blocks, position, levels) == q,
{
}

/// Law: levels beyond the top boundary contribute nothing: growing `levels`
/// steps equals growing only the steps that fit below the boundary, so the
/// blocks placed below the boundary are retained exactly.
pub proof fn lemma_grow_boundary_truncates<B: Copy + PartialEq>(
    q: Seq<B>,
    blocks: CactusBlocks<B>,
    position: QuadPosition,
    levels: nat,
)
    requires
        position.valid(),
    ensures
        spec_grow(q, blocks, position, levels) == spec_grow(
            q,
            blocks,
            position,
            vstd::math::min(levels as int, QUAD_HEIGHT - 1 - position.y) as nat,
        ),
    decreases levels,
{
    if levels > 0 {
        match spec_offset(position, Dir::Up) {
            None => {
                lemma_grow_stops_at_boundary(q, blocks, position, levels);
            },
            Some(above) => {
                let stepped = if spec_check(q, blocks, above) {
                    q.update(pos_index(above), blocks.block)
                } else {
                    q
                };
                lemma_grow_boundary_truncates(stepped, blocks, above, (levels - 1) as nat);
                assert(vstd::math::min(levels as int, QUAD_HEIGHT - 1 - position.y) as nat != 0);
            },
        }
    }
}

} // verus!
