use voxel_chunk::models::cube::{Cube, CubeType};

#[test]
fn new_keeps_material_and_activity() {
    let stone = Cube::new(CubeType::Stone, false);
    assert!(!stone.is_active);
    assert_eq!(stone.cube_type, CubeType::Stone);

    let dirt = Cube::new(CubeType::Dirt, true);
    assert!(dirt.is_active);
    assert_eq!(dirt.cube_type, CubeType::Dirt);
}

#[test]
fn default_cube_is_active_dirt() {
    let cube = Cube::default();
    assert!(cube.is_active);
    assert_eq!(cube.cube_type, CubeType::Dirt);
    assert_eq!(cube, Cube::new(CubeType::Dirt, true));
}

#[test]
fn render_size_is_one() {
    assert_eq!(Cube::CUBE_RENDER_SIZE, 1);
}

#[test]
fn cubes_are_plain_values() {
    let mut cube = Cube::default();
    let copy = cube;
    cube.is_active = false;
    assert!(copy.is_active);
    assert!(!cube.is_active);
    assert_ne!(cube, copy);
}
