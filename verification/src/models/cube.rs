use vstd::prelude::*;

verus! {

/// The materials a cube can be made of.
#[derive(Clone, Copy, Debug, PartialEq, Eq, Structural)]
pub enum CubeType {
    Dirt,
    Stone,
}

/// A single cell of the world grid: whether it is drawn, and what it is made of.
#[derive(Clone, Copy, Debug, PartialEq, Eq, Structural)]
pub struct Cube {
    pub is_active: bool,
    pub cube_type: CubeType,
}

impl Cube {
    /// Half the edge length of a rendered cube.
    pub const CUBE_RENDER_SIZE: usize = 1;

    /// Builds a cube of the given material, drawn or not.
    pub fn new(cube_type: CubeType, is_active: bool) -> (cube: Cube)
        ensures
            cube.is_active == is_active,
            cube.cube_type == cube_type,
    {
        Cube { is_active, cube_type }
    }
}

impl Default for Cube {
    /// An active cube of dirt.
    fn default() -> (cube: Cube)
        ensures
            cube.is_active,
            cube.cube_type == CubeType::Dirt,
    {
        Cube::new(CubeType::Dirt, true)
    }
}

} // verus!
