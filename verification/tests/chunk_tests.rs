use voxel_chunk::models::chunk::{Chunk, Drawable, RenderError};
use voxel_chunk::models::cube::{Cube, CubeType};
use voxel_chunk::models::geometry::CHUNK_VOLUME;
use voxel_chunk::opengl::buffer::{BufferType, GlCommand};

fn chunk_with_active(active: &[usize]) -> Chunk {
    let mut chunk = Chunk::empty();
    for i in 0..CHUNK_VOLUME {
        assert!(chunk.push(Cube::new(CubeType::Dirt, active.contains(&i))));
    }
    chunk
}

#[test]
fn empty_chunk_holds_no_cube() {
    let chunk = Chunk::empty();
    assert_eq!(chunk.len(), 0);
    assert!(!chunk.is_populated());
    assert_eq!(chunk.drawable(), None);
}

#[test]
fn default_chunk_is_full_of_active_cubes() {
    let chunk = Chunk::default();
    assert_eq!(chunk.len(), 4096);
    assert!(chunk.is_populated());
    assert_eq!(chunk.drawable(), None);
    let mesh = chunk.build_mesh();
    assert_eq!(mesh.vertices.len(), 24 * 4096);
    assert_eq!(mesh.indices.len(), 36 * 4096);
}

#[test]
fn push_fills_the_grid_and_then_refuses() {
    let mut chunk = Chunk::empty();
    for i in 0..CHUNK_VOLUME {
        assert!(!chunk.is_populated());
        assert_eq!(chunk.len(), i);
        assert!(chunk.push(Cube::default()));
    }
    assert!(chunk.is_populated());
    assert!(!chunk.push(Cube::default()));
    assert_eq!(chunk.len(), CHUNK_VOLUME);
}

#[test]
fn push_stores_cubes_in_index_order() {
    let mut chunk = Chunk::empty();
    assert!(chunk.push(Cube::new(CubeType::Dirt, false)));
    assert!(chunk.push(Cube::new(CubeType::Stone, true)));
    let mesh = chunk.build_mesh();
    // Only the second cube is active: it sits at index 1, that is at (1, 0, 0).
    assert_eq!(mesh.vertices.len(), 24);
    assert_eq!(mesh.vertices[0].position(), [0, -1, 1]);
}

#[test]
fn mesh_has_24_vertices_and_36_indices_per_active_cube() {
    for active in [
        vec![],
        vec![0],
        vec![4095],
        vec![0, 1, 2],
        vec![5, 17, 300, 2933, 4000],
        (0..100).collect::<Vec<usize>>(),
    ] {
        let mesh = chunk_with_active(&active).build_mesh();
        assert_eq!(mesh.vertices.len(), 24 * active.len());
        assert_eq!(mesh.indices.len(), 36 * active.len());
    }
}

#[test]
fn mesh_of_a_partial_grid_counts_its_active_cubes() {
    let mut chunk = Chunk::empty();
    for i in 0..10 {
        assert!(chunk.push(Cube::new(CubeType::Stone, i % 2 == 0)));
    }
    let mesh = chunk.build_mesh();
    assert_eq!(mesh.vertices.len(), 24 * 5);
    assert_eq!(mesh.indices.len(), 36 * 5);
}

#[test]
fn no_index_dangles() {
    let mesh = chunk_with_active(&[0, 15, 16, 255, 256, 4095]).build_mesh();
    assert_eq!(mesh.indices.len() % 3, 0);
    for &index in &mesh.indices {
        assert!(index < mesh.vertices.len());
    }
}

#[test]
fn inactive_grid_has_empty_mesh() {
    let mesh = chunk_with_active(&[]).build_mesh();
    assert!(mesh.vertices.is_empty());
    assert!(mesh.indices.is_empty());
}

#[test]
fn cubes_are_emitted_in_index_order() {
    let mesh = chunk_with_active(&[16, 256]).build_mesh();
    // index 16 is (0, 1, 0), index 256 is (0, 0, 1)
    assert_eq!(mesh.vertices[0].position(), [-1, 0, 1]);
    assert_eq!(mesh.vertices[24].position(), [-1, -1, 2]);
    assert_eq!(&mesh.indices[36..42], &[24, 25, 26, 24, 26, 27]);
}

#[test]
fn neighbouring_cubes_keep_all_their_faces() {
    let mesh = chunk_with_active(&[0, 1]).build_mesh();
    assert_eq!(mesh.vertices.len(), 48);
    // The right face of the first cube and the left face of the second are both there.
    assert_eq!(mesh.vertices[8].normal(), [1, 0, 0]);
    assert_eq!(mesh.vertices[24 + 12].normal(), [-1, 0, 0]);
}

#[test]
fn single_dirt_voxel_at_origin() {
    let chunk = chunk_with_active(&[0]);
    let mesh = chunk.build_mesh();
    assert_eq!(mesh.vertices.len(), 24);
    assert_eq!(mesh.indices.len(), 36);

    let mut normals: Vec<[i8; 3]> = Vec::new();
    for vertex in &mesh.vertices {
        if !normals.contains(&vertex.normal()) {
            normals.push(vertex.normal());
        }
    }
    assert_eq!(normals.len(), 6);
    for normal in &normals {
        let sharing = mesh.vertices.iter().filter(|v| v.normal() == *normal).count();
        assert_eq!(sharing, 4);
    }
}

#[test]
fn single_dirt_voxel_at_origin_renders() {
    let mut chunk = chunk_with_active(&[0]);
    let upload = chunk.render(1, 2, 3).unwrap();
    assert_eq!(upload.mesh.vertices.len(), 24);
    assert_eq!(upload.mesh.indices.len(), 36);
    assert_eq!(upload.mesh, chunk.build_mesh());
    assert_eq!(
        chunk.drawable(),
        Some(Drawable { vertex_array: 1, vertex_buffer: 2, index_buffer: 3, index_count: 36 })
    );
}

#[test]
fn render_refuses_an_empty_chunk() {
    let mut chunk = Chunk::empty();
    assert_eq!(chunk.render(1, 2, 3), Err(RenderError::Unpopulated));
    assert_eq!(chunk.drawable(), None);
}

#[test]
fn render_refuses_a_partly_filled_chunk() {
    let mut chunk = Chunk::empty();
    for _ in 0..CHUNK_VOLUME - 1 {
        assert!(chunk.push(Cube::default()));
    }
    assert_eq!(chunk.render(1, 2, 3), Err(RenderError::Unpopulated));
    assert!(chunk.push(Cube::default()));
    assert!(chunk.render(1, 2, 3).is_ok());
}

#[test]
fn render_reports_a_missing_vertex_array() {
    let mut chunk = Chunk::default();
    assert_eq!(chunk.render(0, 2, 3), Err(RenderError::VertexArrayCreation));
    assert_eq!(chunk.drawable(), None);
}

#[test]
fn render_reports_a_missing_vertex_buffer() {
    let mut chunk = Chunk::default();
    assert_eq!(chunk.render(1, 0, 3), Err(RenderError::VertexBufferCreation));
    assert_eq!(chunk.drawable(), None);
}

#[test]
fn render_reports_a_missing_index_buffer() {
    let mut chunk = Chunk::default();
    assert_eq!(chunk.render(1, 2, 0), Err(RenderError::IndexBufferCreation));
    assert_eq!(chunk.drawable(), None);
}

#[test]
fn render_reports_the_first_failure() {
    let mut empty = Chunk::empty();
    assert_eq!(empty.render(0, 0, 0), Err(RenderError::Unpopulated));
    let mut chunk = Chunk::default();
    assert_eq!(chunk.render(0, 0, 0), Err(RenderError::VertexArrayCreation));
    assert_eq!(chunk.render(1, 0, 0), Err(RenderError::VertexBufferCreation));
}

#[test]
fn failed_render_leaves_nothing_to_draw() {
    let mut chunk = chunk_with_active(&[3]);
    assert!(chunk.render(1, 2, 3).is_ok());
    assert!(chunk.drawable().is_some());
    assert_eq!(chunk.render(4, 0, 6), Err(RenderError::VertexBufferCreation));
    assert_eq!(chunk.drawable(), None);
    assert!(chunk.render(4, 5, 6).is_ok());
    assert_eq!(
        chunk.drawable(),
        Some(Drawable { vertex_array: 4, vertex_buffer: 5, index_buffer: 6, index_count: 36 })
    );
}

#[test]
fn render_keeps_the_cubes() {
    let mut chunk = chunk_with_active(&[1, 2]);
    let before = chunk.build_mesh();
    assert!(chunk.render(1, 2, 3).is_ok());
    assert_eq!(chunk.len(), CHUNK_VOLUME);
    assert_eq!(chunk.build_mesh(), before);
}

#[test]
fn render_issues_the_upload_calls_in_order() {
    let mut chunk = chunk_with_active(&[0, 9]);
    let upload = chunk.render(11, 22, 33).unwrap();
    let expected = vec![
        GlCommand::BindVertexArray { array: 11 },
        GlCommand::BindBuffer { target: BufferType::Array, buffer: 22 },
        GlCommand::BufferData {
            target: BufferType::Array,
            size: 48 * 40,
            usage: ogl33::GL_STATIC_DRAW,
        },
        GlCommand::BindBuffer { target: BufferType::ElementArray, buffer: 33 },
        GlCommand::BufferData {
            target: BufferType::ElementArray,
            size: 72 * 4,
            usage: ogl33::GL_STATIC_DRAW,
        },
        GlCommand::EnableVertexAttribArray { index: 0 },
        GlCommand::VertexAttribPointer {
            index: 0,
            components: 3,
            type_: ogl33::GL_FLOAT,
            normalized: ogl33::GL_FALSE,
            stride: 40,
            offset: 0,
        },
        GlCommand::EnableVertexAttribArray { index: 1 },
        GlCommand::VertexAttribPointer {
            index: 1,
            components: 3,
            type_: ogl33::GL_FLOAT,
            normalized: ogl33::GL_FALSE,
            stride: 40,
            offset: 12,
        },
        GlCommand::EnableVertexAttribArray { index: 2 },
        GlCommand::VertexAttribPointer {
            index: 2,
            components: 4,
            type_: ogl33::GL_FLOAT,
            normalized: ogl33::GL_FALSE,
            stride: 40,
            offset: 24,
        },
        GlCommand::BindVertexArray { array: 0 },
    ];
    assert_eq!(upload.commands, expected);
}

#[test]
fn render_uses_the_values_opengl_gives_its_names() {
    let mut chunk = Chunk::default();
    let upload = chunk.render(1, 2, 3).unwrap();
    assert_eq!(
        upload.commands[2],
        GlCommand::BufferData { target: BufferType::Array, size: 24 * 4096 * 40, usage: 0x88E4 }
    );
    assert_eq!(
        upload.commands[6],
        GlCommand::VertexAttribPointer {
            index: 0,
            components: 3,
            type_: 0x1406,
            normalized: 0,
            stride: 40,
            offset: 0,
        }
    );
}

#[test]
fn render_of_an_inactive_grid_uploads_nothing() {
    let mut chunk = chunk_with_active(&[]);
    let upload = chunk.render(1, 2, 3).unwrap();
    assert!(upload.mesh.vertices.is_empty());
    assert!(upload.mesh.indices.is_empty());
    assert_eq!(
        upload.commands[2],
        GlCommand::BufferData {
            target: BufferType::Array,
            size: 0,
            usage: ogl33::GL_STATIC_DRAW,
        }
    );
    assert_eq!(chunk.drawable().map(|d| d.index_count), Some(0));
}

#[test]
fn index_count_is_36_per_active_cube() {
    let mut chunk = Chunk::default();
    assert!(chunk.render(1, 2, 3).is_ok());
    assert_eq!(chunk.drawable().map(|d| d.index_count), Some(36 * 4096));
}
