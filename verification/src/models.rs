//! The world: cubes, the chunks they are grouped in, and the geometry of a chunk's mesh.

pub mod chunk;
pub mod cube;
pub mod geometry;
