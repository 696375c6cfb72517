use vstd::prelude::*;
use ogl33::GLuint;
use crate::models::cube::{Cube, CubeType};
use crate::models::geometry::{
    active_count, cube_indices, cube_vertices, lemma_mesh_size, lemma_mesh_well_formed,
    lemma_with_cube_well_formed, mesh_of, position_of, with_cube, CHUNK_SIZE, CHUNK_VOLUME,
    INDICES_PER_CUBE, VERTICES_PER_CUBE,
};
use crate::opengl::buffer::{
    float_type, gl_false, gl_float, gl_static_draw, not_normalized, static_draw, Buffer,
    BufferType, GlCommand,
};
use crate::opengl::mesh::{
    Mesh, Vertex, VertexView, COLOR_OFFSET, INDEX_SIZE, NORMAL_OFFSET, POSITION_OFFSET,
    VERTEX_SIZE,
};

verus! {

/// Why a chunk could not be rendered.
#[derive(Clone, Copy, Debug, PartialEq, Eq, Structural)]
pub enum RenderError {
    /// The chunk does not hold a full grid of cubes.
    Unpopulated,
    /// No vertex array object was made.
    VertexArrayCreation,
    /// No buffer object was made for the vertices.
    VertexBufferCreation,
    /// No buffer object was made for the triangle corners.
    IndexBufferCreation,
}

/// What a renderer needs to draw a rendered chunk: the names of its three
/// objects on the GPU, and how many triangle corners the index buffer holds.
#[derive(Clone, Copy, Debug, PartialEq, Eq, Structural)]
pub struct Drawable {
    pub vertex_array: GLuint,
    pub vertex_buffer: GLuint,
    pub index_buffer: GLuint,
    pub index_count: usize,
}

/// What rendering a chunk asks of the owner of the rendering context: the
/// mesh to transfer, and the OpenGL calls that transfer and describe it.
#[derive(Debug, PartialEq, Eq)]
pub struct Upload {
    /// The geometry to put into the two buffers.
    pub mesh: Mesh,
    /// The calls to make, in this order.
    pub commands: Vec<GlCommand>,
}

/// What a chunk stands for: its cubes in flat-index order, and, once it has
/// been rendered, what is needed to draw it.
pub struct ChunkView {
    pub cubes: Seq<Cube>,
    pub drawable: Option<Drawable>,
}

/// A group of `CHUNK_SIZE` x `CHUNK_SIZE` x `CHUNK_SIZE` cubes, meshed and drawn as one.
#[derive(Debug)]
pub struct Chunk {
    cubes: Vec<Cube>,
    drawable: Option<Drawable>,
}

impl View for Chunk {
    type V = ChunkView;

    closed spec fn view(&self) -> ChunkView {
        ChunkView { cubes: self.cubes@, drawable: self.drawable }
    }
}

/// Which error rendering a grid into the three given objects ends in, if any.
/// A grid that is not full is refused before the objects are looked at; of
/// the objects, the first that was not made is reported.
pub open spec fn render_error(
    cubes: Seq<Cube>,
    vertex_array: GLuint,
    vertex_buffer: GLuint,
    index_buffer: GLuint,
) -> Option<RenderError> {
    if cubes.len() != CHUNK_VOLUME {
        Some(RenderError::Unpopulated)
    } else if vertex_array == 0 {
        Some(RenderError::VertexArrayCreation)
    } else if vertex_buffer == 0 {
        Some(RenderError::VertexBufferCreation)
    } else if index_buffer == 0 {
        Some(RenderError::IndexBufferCreation)
    } else {
        None
    }
}

/// The two calls that describe one attribute of the bound vertex buffer:
/// `components` floats, `offset` bytes into each vertex record.
pub open spec fn attribute_commands(index: GLuint, components: int, offset: int) -> Seq<GlCommand> {
    seq![
        GlCommand::EnableVertexAttribArray { index },
        GlCommand::VertexAttribPointer {
            index,
            components: components as i32,
            type_: float_type(),
            normalized: not_normalized(),
            stride: VERTEX_SIZE as i32,
            offset: offset as usize,
        },
    ]
}

/// The calls that put a mesh of `vertex_count` vertices and `index_count`
/// triangle corners on the GPU: bind the vertex array; bind each buffer and
/// fill it, once and for many draws; describe position, normal and colour;
/// unbind the vertex array.
pub open spec fn upload_commands(
    vertex_array: GLuint,
    vertex_buffer: GLuint,
    index_buffer: GLuint,
    vertex_count: int,
    index_count: int,
) -> Seq<GlCommand> {
    seq![
        GlCommand::BindVertexArray { array: vertex_array },
        GlCommand::BindBuffer { target: BufferType::Array, buffer: vertex_buffer },
        GlCommand::BufferData {
            target: BufferType::Array,
            size: (vertex_count * VERTEX_SIZE) as isize,
            usage: static_draw(),
        },
        GlCommand::BindBuffer { target: BufferType::ElementArray, buffer: index_buffer },
        GlCommand::BufferData {
            target: BufferType::ElementArray,
            size: (index_count * INDEX_SIZE) as isize,
            usage: static_draw(),
        },
    ]
        + attribute_commands(0, 3, POSITION_OFFSET as int)
        + attribute_commands(1, 3, NORMAL_OFFSET as int)
        + attribute_commands(2, 4, COLOR_OFFSET as int)
        + seq![GlCommand::BindVertexArray { array: 0 }]
}

impl ChunkView {
    /// What every chunk made and changed through this library keeps: it never
    /// holds more than a full grid, and while it has something to draw, the
    /// grid is full, all three objects exist, and the index count is that of
    /// the grid's mesh.
    pub open spec fn well_formed(self) -> bool {
        &&& self.cubes.len() <= CHUNK_VOLUME
        &&& self.drawable matches Some(d) ==> {
            &&& self.cubes.len() == CHUNK_VOLUME
            &&& d.vertex_array != 0
            &&& d.vertex_buffer != 0
            &&& d.index_buffer != 0
            &&& d.index_count == INDICES_PER_CUBE * active_count(self.cubes)
        }
    }
}

impl Chunk {
    /// Creates a chunk without cubes, with room for a full grid. It has to be
    /// filled, cube by cube, before it can be rendered.
    pub fn empty() -> (chunk: Chunk)
        ensures
            chunk@.cubes == Seq::<Cube>::empty(),
            chunk@.drawable is None,
            chunk@.well_formed(),
    {
        Chunk { cubes: Vec::with_capacity(CHUNK_VOLUME), drawable: None }
    }

    /// Stores a cube at the next flat index, if the grid is not full yet, and
    /// says whether it did.
    pub fn push(&mut self, cube: Cube) -> (stored: bool)
        ensures
            stored == (old(self)@.cubes.len() < CHUNK_VOLUME),
            stored ==> final(self)@.cubes == old(self)@.cubes.push(cube),
            !stored ==> final(self)@.cubes == old(self)@.cubes,
            final(self)@.drawable == old(self)@.drawable,
            old(self)@.well_formed() ==> final(self)@.well_formed(),
    {
        if self.cubes.len() < CHUNK_VOLUME {
            self.cubes.push(cube);
            true
        } else {
            false
        }
    }

    /// How many cubes the chunk holds.
    pub fn len(&self) -> (n: usize)
        ensures
            n == self@.cubes.len(),
    {
        self.cubes.len()
    }

    /// Whether the chunk holds a full grid, and so can be rendered.
    pub fn is_populated(&self) -> (full: bool)
        ensures
            full == (self@.cubes.len() == CHUNK_VOLUME),
    {
        self.cubes.len() == CHUNK_VOLUME
    }

    /// What is needed to draw the chunk, once it has been rendered.
    pub fn drawable(&self) -> (drawable: Option<Drawable>)
        ensures
            drawable == self@.drawable,
    {
        self.drawable
    }

    /// Grid coordinates `(x, y, z)` of the cube stored at flat index `i`.
    pub fn get_position(i: usize) -> (p: (usize, usize, usize))
        ensures
            (p.0 as int, p.1 as int, p.2 as int) == position_of(i as int),
    {
        (i % CHUNK_SIZE, (i / CHUNK_SIZE) % CHUNK_SIZE, i / (CHUNK_SIZE * CHUNK_SIZE))
    }

    /// Builds the mesh of the chunk's cubes: every active cube emitted in
    /// index order, inactive ones passed over.
    pub fn build_mesh(&self) -> (mesh: Mesh)
        ensures
            mesh@ == mesh_of(self@.cubes),
            mesh@.well_formed(),
            mesh@.vertices.len() == VERTICES_PER_CUBE * active_count(self@.cubes),
            mesh@.indices.len() == INDICES_PER_CUBE * active_count(self@.cubes),
    {
        let mut mesh = Mesh::default();
        let mut i: usize = 0;
        while i < self.cubes.len()
            invariant
                i <= self.cubes@.len(),
                mesh@ == mesh_of(self.cubes@.take(i as int)),
            decreases self.cubes@.len() - i,
        {
            let cube = &self.cubes[i];
            if cube.is_active {
                create_cube_vertex(i, cube, &mut mesh);
            }
            proof {
                assert(self.cubes@.take(i + 1).drop_last() =~= self.cubes@.take(i as int));
            }
            i += 1;
        }
        proof {
            assert(self.cubes@.take(i as int) =~= self.cubes@);
            lemma_mesh_size(self.cubes@);
            lemma_mesh_well_formed(self.cubes@);
        }
        mesh
    }

    /// Renders the chunk into a vertex array object and two buffer objects
    /// that the caller has generated, named as OpenGL named them (zero where
    /// it made none).
    ///
    /// A chunk that is not fully populated is refused, and so is an object
    /// that was not made. Otherwise the chunk's mesh is built and handed back
    /// with the calls that upload it, and the chunk keeps what is needed to
    /// draw it. After a refusal the chunk has nothing to draw.
    pub fn render(
        &mut self,
        vertex_array: GLuint,
        vertex_buffer: GLuint,
        index_buffer: GLuint,
    ) -> (result: Result<Upload, RenderError>)
        ensures
            final(self)@.cubes == old(self)@.cubes,
            old(self)@.well_formed() ==> final(self)@.well_formed(),
            match render_error(old(self)@.cubes, vertex_array, vertex_buffer, index_buffer) {
                Some(error) => {
                    &&& result == Err::<Upload, RenderError>(error)
                    &&& final(self)@.drawable is None
                },
                None => {
                    &&& result matches Ok(upload)
                    &&& upload.mesh@ == mesh_of(old(self)@.cubes)
                    &&& upload.commands@ == upload_commands(
                        vertex_array,
                        vertex_buffer,
                        index_buffer,
                        upload.mesh@.vertices.len() as int,
                        upload.mesh@.indices.len() as int,
                    )
                    &&& final(self)@.drawable == Some(
                        Drawable {
                            vertex_array,
                            vertex_buffer,
                            index_buffer,
                            index_count: upload.mesh@.indices.len() as usize,
                        },
                    )
                },
            },
    {
        self.drawable = None;
        if !self.is_populated() {
            return Err(RenderError::Unpopulated);
        }
        if vertex_array == 0 {
            return Err(RenderError::VertexArrayCreation);
        }
        let vbo = match Buffer::new(vertex_buffer) {
            Some(buffer) => buffer,
            None => {
                return Err(RenderError::VertexBufferCreation);
            },
        };
        let ebo = match Buffer::new(index_buffer) {
            Some(buffer) => buffer,
            None => {
                return Err(RenderError::IndexBufferCreation);
            },
        };
        let mesh = self.build_mesh();
        proof {
            lemma_active_count_bound(self.cubes@);
        }
        let vertex_bytes: usize = mesh.vertices.len() * VERTEX_SIZE;
        let index_bytes: usize = mesh.indices.len() * INDEX_SIZE;
        let usage = gl_static_draw();

        let mut commands: Vec<GlCommand> = Vec::new();
        commands.push(GlCommand::BindVertexArray { array: vertex_array });
        commands.push(vbo.bind(BufferType::Array));
        commands.push(
            GlCommand::BufferData { target: BufferType::Array, size: vertex_bytes as isize, usage },
        );
        commands.push(ebo.bind(BufferType::ElementArray));
        commands.push(
            GlCommand::BufferData {
                target: BufferType::ElementArray,
                size: index_bytes as isize,
                usage,
            },
        );
        push_attribute(&mut commands, 0, 3, POSITION_OFFSET);
        push_attribute(&mut commands, 1, 3, NORMAL_OFFSET);
        push_attribute(&mut commands, 2, 4, COLOR_OFFSET);
        commands.push(GlCommand::BindVertexArray { array: 0 });

        self.drawable = Some(
            Drawable { vertex_array, vertex_buffer, index_buffer, index_count: mesh.indices.len() },
        );
        proof {
            assert(commands@ =~= upload_commands(
                vertex_array,
                vertex_buffer,
                index_buffer,
                mesh@.vertices.len() as int,
                mesh@.indices.len() as int,
            ));
        }
        Ok(Upload { mesh, commands })
    }
}

impl Default for Chunk {
    /// A full grid of active dirt cubes, not rendered yet.
    fn default() -> (chunk: Chunk)
        ensures
            chunk@.cubes.len() == CHUNK_VOLUME,
            forall|i: int|
                0 <= i < CHUNK_VOLUME ==> (#[trigger] chunk@.cubes[i]).is_active
                    && chunk@.cubes[i].cube_type == CubeType::Dirt,
            chunk@.drawable is None,
            chunk@.well_formed(),
    {
        let mut cubes: Vec<Cube> = Vec::with_capacity(CHUNK_VOLUME);
        while cubes.len() < CHUNK_VOLUME
            invariant
                cubes@.len() <= CHUNK_VOLUME,
                forall|i: int|
                    0 <= i < cubes@.len() ==> (#[trigger] cubes@[i]).is_active && cubes@[i].cube_type
                        == CubeType::Dirt,
            decreases CHUNK_VOLUME - cubes@.len(),
        {
            cubes.push(Cube::default());
        }
        Chunk { cubes, drawable: None }
    }
}

/// No more cubes of a grid are active than the grid holds.
proof fn lemma_active_count_bound(cubes: Seq<Cube>)
    ensures
        active_count(cubes) <= cubes.len(),
    decreases cubes.len(),
{
    if cubes.len() > 0 {
        lemma_active_count_bound(cubes.drop_last());
    }
}

/// Appends the two calls that describe one attribute of the vertex buffer.
fn push_attribute(commands: &mut Vec<GlCommand>, index: GLuint, components: i32, offset: usize)
    ensures
        final(commands)@ == old(commands)@ + attribute_commands(
            index,
            components as int,
            offset as int,
        ),
{
    commands.push(GlCommand::EnableVertexAttribArray { index });
    commands.push(
        GlCommand::VertexAttribPointer {
            index,
            components,
            type_: gl_float(),
            normalized: gl_false(),
            stride: VERTEX_SIZE as i32,
            offset,
        },
    );
}

/// Appends one face to the mesh: its four vertices, then the two triangles
/// that split it along the diagonal from the first vertex to the third.
fn push_face(
    mesh: &mut Mesh,
    a: [i64; 3],
    b: [i64; 3],
    c: [i64; 3],
    d: [i64; 3],
    normal: [i8; 3],
    color: [u8; 4],
)
    ensures
        final(mesh)@.vertices == old(mesh)@.vertices + seq![
            VertexView::of(a, normal, color),
            VertexView::of(b, normal, color),
            VertexView::of(c, normal, color),
            VertexView::of(d, normal, color),
        ],
        final(mesh)@.indices == old(mesh)@.indices + ({
            let n = old(mesh)@.vertices.len() as int;
            seq![n, n + 1, n + 2, n, n + 2, n + 3]
        }),
{
    let v1 = mesh.push_vertex(Vertex::new(a, normal, color));
    let v2 = mesh.push_vertex(Vertex::new(b, normal, color));
    let v3 = mesh.push_vertex(Vertex::new(c, normal, color));
    let v4 = mesh.push_vertex(Vertex::new(d, normal, color));
    mesh.push_triangle(v1, v2, v3);
    mesh.push_triangle(v1, v3, v4);
}

/// Emits the cube at flat index `i` into the mesh: six faces of four fresh
/// vertices and two triangles each, whatever its neighbours are.
pub fn create_cube_vertex(i: usize, _cube: &Cube, mesh: &mut Mesh)
    ensures
        final(mesh)@ == with_cube(old(mesh)@, i as int),
        old(mesh)@.well_formed() ==> final(mesh)@.well_formed(),
{
    let (x, y, z) = Chunk::get_position(i);
    let r: i64 = Cube::CUBE_RENDER_SIZE as i64;
    let x: i64 = x as i64;
    let y: i64 = y as i64;
    let z: i64 = z as i64;
    let front_bottom_left: [i64; 3] = [x - r, y - r, z + r];
    let front_bottom_right: [i64; 3] = [x + r, y - r, z + r];
    let front_top_right: [i64; 3] = [x + r, y + r, z + r];
    let front_top_left: [i64; 3] = [x - r, y + r, z + r];
    let back_bottom_right: [i64; 3] = [x + r, y - r, z - r];
    let back_bottom_left: [i64; 3] = [x - r, y - r, z - r];
    let back_top_left: [i64; 3] = [x - r, y + r, z - r];
    let back_top_right: [i64; 3] = [x + r, y + r, z - r];
    let color: [u8; 4] = [1, 1, 1, 1];

    // Front
    push_face(
        mesh,
        front_bottom_left,
        front_bottom_right,
        front_top_right,
        front_top_left,
        [0, 0, 1],
        color,
    );
    // Back
    push_face(
        mesh,
        back_bottom_right,
        back_bottom_left,
        back_top_left,
        back_top_right,
        [0, 0, -1],
        color,
    );
    // Right
    push_face(
        mesh,
        front_bottom_right,
        back_bottom_right,
        back_top_right,
        front_top_right,
        [1, 0, 0],
        color,
    );
    // Left
    push_face(
        mesh,
        back_bottom_left,
        front_bottom_left,
        front_top_left,
        back_top_left,
        [-1, 0, 0],
        color,
    );
    // Top
    push_face(
        mesh,
        front_top_left,
        front_top_right,
        back_top_right,
        back_top_left,
        [0, 1, 0],
        color,
    );
    // Bottom
    push_face(
        mesh,
        back_bottom_left,
        back_bottom_right,
        front_bottom_right,
        front_bottom_left,
        [0, -1, 0],
        color,
    );

    proof {
        let c = position_of(i as int);
        assert(mesh@.vertices =~= old(mesh)@.vertices + cube_vertices(c));
        assert(mesh@.indices =~= old(mesh)@.indices + cube_indices(
            old(mesh)@.vertices.len() as int,
        ));
        if old(mesh)@.well_formed() {
            lemma_with_cube_well_formed(old(mesh)@, i as int);
        }
    }
}

} // verus!
