//! Bounded 3D region ("quad") and the coordinate model decorators operate on.
//!
//! A quad is a fixed-size box of voxels. Positions are value types bounded to
//! the quad; offsetting a position by a direction either yields a new
//! in-bounds position or signals out-of-bounds. There is no wraparound and no
//! clamping.

use vstd::prelude::*;

verus! {

/// Horizontal extent of a quad along the x and z axes.
pub const QUAD_SIZE: u8 = 32;

/// Vertical extent of a quad along the y axis.
pub const QUAD_HEIGHT: u8 = 128;

/// Number of voxels in a quad: `QUAD_SIZE * QUAD_SIZE * QUAD_HEIGHT`.
pub const QUAD_VOLUME: usize = 131072;

/// A unit direction along one of the three axes.
#[derive(Clone, Copy, PartialEq, Eq, Structural, Debug)]
pub enum Dir {
    Up,
    Down,
    MinusX,
    PlusX,
    MinusZ,
    PlusZ,
}

impl Dir {
    /// True for the four directions that stay within a horizontal plane.
    pub open spec fn is_horizontal(self) -> bool {
        self == Dir::MinusX || self == Dir::PlusX || self == Dir::MinusZ || self == Dir::PlusZ
    }
}

/// An integer 3D coordinate bounded to a quad.
#[derive(Clone, Copy, PartialEq, Eq, Structural, Debug, Hash)]
pub struct QuadPosition {
    pub x: u8,
    pub y: u8,
    pub z: u8,
}

/// Where `position` offset one step in direction `d` lands: the neighboring
/// in-bounds position, or `None` when the step leaves the quad.
pub open spec fn spec_offset(position: QuadPosition, d: Dir) -> Option<QuadPosition> {
    match d {
        Dir::Up => if position.y + 1 < QUAD_HEIGHT {
            Some(QuadPosition { y: (position.y + 1) as u8, ..position })
        } else {
            None
        },
        Dir::Down => if position.y >= 1 {
            Some(QuadPosition { y: (position.y - 1) as u8, ..position })
        } else {
            None
        },
        Dir::MinusX => if position.x >= 1 {
            Some(QuadPosition { x: (position.x - 1) as u8, ..position })
        } else {
            None
        },
        Dir::PlusX => if position.x + 1 < QUAD_SIZE {
            Some(QuadPosition { x: (position.x + 1) as u8, ..position })
        } else {
            None
        },
        Dir::MinusZ => if position.z >= 1 {
            Some(QuadPosition { z: (position.z - 1) as u8, ..position })
        } else {
            None
        },
        Dir::PlusZ => if position.z + 1 < QUAD_SIZE {
            Some(QuadPosition { z: (position.z + 1) as u8, ..position })
        } else {
            None
        },
    }
}

/// Index of an in-bounds position in the row-major storage of a quad.
pub open spec fn pos_index(position: QuadPosition) -> int {
    position.x + 32 * (position.z + 32 * position.y)
}

/// The block stored for `position` in quad contents `q`.
pub open spec fn block_at<B>(q: Seq<B>, position: QuadPosition) -> B {
    q[pos_index(position)]
}

impl QuadPosition {
    /// True when the coordinates lie inside the quad.
    pub open spec fn valid(self) -> bool {
        self.x < QUAD_SIZE && self.y < QUAD_HEIGHT && self.z < QUAD_SIZE
    }

    /// The position with the given coordinates, when they are in bounds.
    pub fn new(x: u8, y: u8, z: u8) -> (r: Option<QuadPosition>)
        ensures
            r == if x < QUAD_SIZE && y < QUAD_HEIGHT && z < QUAD_SIZE {
                Some(QuadPosition { x, y, z })
            } else {
                None::<QuadPosition>
            },
    {
        if x < QUAD_SIZE && y < QUAD_HEIGHT && z < QUAD_SIZE {
            Some(QuadPosition { x, y, z })
        } else {
            None
        }
    }

    /// Offset one step in direction `d`: the neighboring position, or `None`
    /// when the step would leave the quad.
    pub fn offset(self, d: Dir) -> (r: Option<QuadPosition>)
        requires
            self.valid(),
        ensures
            r == spec_offset(self, d),
            r is Some ==> r->Some_0.valid(),
    {
        match d {
            Dir::Up => if self.y + 1 < QUAD_HEIGHT {
                Some(QuadPosition { y: self.y + 1, ..self })
            } else {
                None
            },
            Dir::Down => if self.y >= 1 {
                Some(QuadPosition { y: self.y - 1, ..self })
            } else {
                None
            },
            Dir::MinusX => if self.x >= 1 {
                Some(QuadPosition { x: self.x - 1, ..self })
            } else {
                None
            },
            Dir::PlusX => if self.x + 1 < QUAD_SIZE {
                Some(QuadPosition { x: self.x + 1, ..self })
            } else {
                None
            },
            Dir::MinusZ => if self.z >= 1 {
                Some(QuadPosition { z: self.z - 1, ..self })
            } else {
                None
            },
            Dir::PlusZ => if self.z + 1 < QUAD_SIZE {
                Some(QuadPosition { z: self.z + 1, ..self })
            } else {
                None
            },
        }
    }
}

/// The storage index of an in-bounds position lies inside the quad's volume.
pub proof fn lemma_pos_index_in_range(position: QuadPosition)
    requires
        position.valid(),
    ensures
        0 <= pos_index(position) < QUAD_VOLUME,
{
}

/// Distinct in-bounds positions occupy distinct storage indices, so writing
/// one voxel never disturbs another.
pub proof fn lemma_pos_index_injective(a: QuadPosition, b: QuadPosition)
    requires
        a.valid(),
        b.valid(),
        a != b,
    ensures
        pos_index(a) != pos_index(b),
{
}

/// A fixed-size box of voxels holding one block identity per position.
pub struct Quad<B> {
    pub blocks: Vec<B>,
}

impl<B> View for Quad<B> {
    type V = Seq<B>;

    open spec fn view(&self) -> Seq<B> {
        self.blocks@
    }
}

impl<B: Copy + PartialEq> Quad<B> {
    /// Well-formed: the storage covers exactly the quad's volume.
    pub open spec fn wf(self) -> bool {
        self.blocks@.len() == QUAD_VOLUME
    }

    /// A quad with every voxel set to `fill`.
    pub fn new(fill: B) -> (r: Quad<B>)
        ensures
            r.wf(),
            forall|p: QuadPosition| p.valid() ==> block_at(r@, p) == fill,
    {
        let mut blocks: Vec<B> = Vec::new();
        let mut i: usize = 0;
        while i < QUAD_VOLUME
            invariant
                i <= QUAD_VOLUME,
                blocks@.len() == i,
                forall|j: int| 0 <= j < i ==> blocks@[j] == fill,
            decreases QUAD_VOLUME - i,
        {
            blocks.push(fill);
            i = i + 1;
        }
        let r = Quad { blocks };
        proof {
            assert forall|p: QuadPosition| p.valid() implies block_at(r@, p) == fill by {
                lemma_pos_index_in_range(p);
            }
        }
        r
    }

    /// Read the block at `position`.
    pub fn get(&self, position: QuadPosition) -> (r: B)
        requires
            self.wf(),
            position.valid(),
        ensures
            r == block_at(self@, position),
    {
        proof {
            lemma_pos_index_in_range(position);
        }
        let idx = exec_pos_index(position);
        self.blocks[idx]
    }

    /// Write `block` at `position`, taking effect immediately: reads later in
    /// the same decoration call observe the write.
    pub fn set_immediate(&mut self, position: QuadPosition, block: &B)
        requires
            old(self).wf(),
            position.valid(),
        ensures
            final(self).wf(),
            final(self)@ == old(self)@.update(pos_index(position), *block),
    {
        proof {
            lemma_pos_index_in_range(position);
        }
        let idx = exec_pos_index(position);
        self.blocks[idx] = *block;
    }
}

/// The storage index of `position`, computed in executable code.
fn exec_pos_index(position: QuadPosition) -> (r: usize)
    requires
        position.valid(),
    ensures
        r == pos_index(position),
{
    (position.x as usize) + 32 * ((position.z as usize) + 32 * (position.y as usize))
}

} // verus!
