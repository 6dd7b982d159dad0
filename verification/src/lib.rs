//! Decoration layer of a voxel-world generator: deterministic, pseudo-random
//! algorithms that place secondary features (cacti, plants, surface soil
//! layers) onto an already-generated terrain skeleton, together with the
//! block-matching predicate language they are built on.

pub mod cactus;
pub mod decorator;
pub mod matcher;
pub mod plant;
pub mod quad;
pub mod rng;
pub mod surface;
