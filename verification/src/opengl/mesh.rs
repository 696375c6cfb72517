use vstd::prelude::*;

verus! {

/// Bytes one component of a vertex takes in a vertex buffer: a 32-bit float.
pub const FLOAT_SIZE: usize = 4;

/// Bytes one vertex takes in a vertex buffer: three floats of position,
/// three of normal and four of colour, one after the other.
pub const VERTEX_SIZE: usize = 10 * FLOAT_SIZE;

/// Byte offset of the position within a vertex record.
pub const POSITION_OFFSET: usize = 0;

/// Byte offset of the normal within a vertex record.
pub const NORMAL_OFFSET: usize = 3 * FLOAT_SIZE;

/// Byte offset of the colour within a vertex record.
pub const COLOR_OFFSET: usize = 6 * FLOAT_SIZE;

/// Bytes one triangle corner takes in an index buffer: a 32-bit unsigned integer.
pub const INDEX_SIZE: usize = 4;

/// What a vertex stands for: a point of the integer lattice, the direction its
/// face looks in, and a colour, one whole number per component.
pub struct VertexView {
    pub position: (int, int, int),
    pub normal: (int, int, int),
    pub color: (int, int, int, int),
}

/// A point in space with its normal and its colour.
///
/// Every component is a whole number; a renderer widens each to a float,
/// value for value, when it fills a vertex buffer.
#[derive(Clone, Copy, Debug, PartialEq, Eq)]
pub struct Vertex {
    position: [i64; 3],
    normal: [i8; 3],
    color: [u8; 4],
}

impl VertexView {
    /// The vertex that three arrays of components stand for.
    pub open spec fn of(position: [i64; 3], normal: [i8; 3], color: [u8; 4]) -> VertexView {
        VertexView {
            position: (position[0] as int, position[1] as int, position[2] as int),
            normal: (normal[0] as int, normal[1] as int, normal[2] as int),
            color: (color[0] as int, color[1] as int, color[2] as int, color[3] as int),
        }
    }
}

impl View for Vertex {
    type V = VertexView;

    closed spec fn view(&self) -> VertexView {
        VertexView::of(self.position, self.normal, self.color)
    }
}

impl Vertex {
    /// Builds a vertex from its three attributes.
    pub fn new(position: [i64; 3], normal: [i8; 3], color: [u8; 4]) -> (vertex: Vertex)
        ensures
            vertex@ == VertexView::of(position, normal, color),
    {
        Vertex { position, normal, color }
    }

    /// The vertex's place in space, as `[x, y, z]`.
    pub fn position(&self) -> (p: [i64; 3])
        ensures
            (p[0] as int, p[1] as int, p[2] as int) == self@.position,
    {
        self.position
    }

    /// The direction the vertex's face looks in, as `[x, y, z]`.
    pub fn normal(&self) -> (n: [i8; 3])
        ensures
            (n[0] as int, n[1] as int, n[2] as int) == self@.normal,
    {
        self.normal
    }

    /// The vertex's colour, as `[red, green, blue, alpha]`.
    pub fn color(&self) -> (c: [u8; 4])
        ensures
            (c[0] as int, c[1] as int, c[2] as int, c[3] as int) == self@.color,
    {
        self.color
    }
}

/// What a mesh stands for: its vertices in order, and its triangle corners in
/// order, three to a triangle, each the index of a vertex.
pub struct MeshView {
    pub vertices: Seq<VertexView>,
    pub indices: Seq<int>,
}

impl MeshView {
    /// The mesh with nothing in it.
    pub open spec fn empty() -> MeshView {
        MeshView { vertices: Seq::empty(), indices: Seq::empty() }
    }

    /// Whether `v` is the index of a vertex of the mesh.
    pub open spec fn has_vertex(self, v: int) -> bool {
        0 <= v < self.vertices.len()
    }

    /// Every triangle corner names a vertex of the mesh, and the corners come in threes.
    pub open spec fn well_formed(self) -> bool {
        &&& self.indices.len() % 3 == 0
        &&& forall|k: int|
            0 <= k < self.indices.len() ==> self.has_vertex(#[trigger] self.indices[k])
    }
}

/// A single drawable entity: vertices, and the triangles drawn between them.
#[derive(Debug, PartialEq, Eq)]
pub struct Mesh {
    pub vertices: Vec<Vertex>,
    pub indices: Vec<usize>,
}

impl View for Mesh {
    type V = MeshView;

    open spec fn view(&self) -> MeshView {
        MeshView {
            vertices: self.vertices@.map_values(|v: Vertex| v@),
            indices: self.indices@.map_values(|i: usize| i as int),
        }
    }
}

impl Mesh {
    /// Builds a mesh from vertices and triangle corners that already exist.
    pub fn new(vertices: Vec<Vertex>, indices: Vec<usize>) -> (mesh: Mesh)
        ensures
            mesh.vertices == vertices,
            mesh.indices == indices,
    {
        Mesh { vertices, indices }
    }

    /// Appends a vertex and returns the index it has in the mesh.
    pub fn push_vertex(&mut self, vertex: Vertex) -> (index: usize)
        ensures
            index == old(self)@.vertices.len(),
            final(self)@.vertices == old(self)@.vertices.push(vertex@),
            final(self)@.indices == old(self)@.indices,
            final(self).vertices@ == old(self).vertices@.push(vertex),
            final(self).indices == old(self).indices,
            old(self)@.well_formed() ==> final(self)@.well_formed(),
    {
        self.vertices.push(vertex);
        self.vertices.len() - 1
    }

    /// Appends one triangle: its three corners, in the order given.
    pub fn push_triangle(&mut self, v1: usize, v2: usize, v3: usize)
        ensures
            final(self)@.indices == old(self)@.indices + seq![v1 as int, v2 as int, v3 as int],
            final(self)@.vertices == old(self)@.vertices,
            final(self).indices@ == old(self).indices@ + seq![v1, v2, v3],
            final(self).vertices == old(self).vertices,
            old(self)@.well_formed() && old(self)@.has_vertex(v1 as int) && old(self)@.has_vertex(
                v2 as int,
            ) && old(self)@.has_vertex(v3 as int) ==> final(self)@.well_formed(),
    {
        self.indices.push(v1);
        self.indices.push(v2);
        self.indices.push(v3);
        proof {
            let before = old(self)@;
            let after = self@;
            assert(after.indices =~= before.indices + seq![v1 as int, v2 as int, v3 as int]);
            if before.well_formed() && before.has_vertex(v1 as int) && before.has_vertex(v2 as int)
                && before.has_vertex(v3 as int) {
                assert forall|k: int| 0 <= k < after.indices.len() implies after.has_vertex(
                    #[trigger] after.indices[k],
                ) by {
                    if k < before.indices.len() {
                        assert(after.indices[k] == before.indices[k]);
                    }
                }
            }
        }
    }
}

impl Default for Mesh {
    /// The mesh with nothing in it.
    fn default() -> (mesh: Mesh)
        ensures
            mesh@ == MeshView::empty(),
    {
        let mesh = Mesh { vertices: Vec::new(), indices: Vec::new() };
        assert(mesh@.vertices =~= Seq::empty() && mesh@.indices =~= Seq::empty());
        mesh
    }
}

} // verus!
