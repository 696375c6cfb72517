use vstd::prelude::*;
use crate::models::cube::Cube;
use crate::opengl::mesh::{MeshView, VertexView};

verus! {

/// Edge length of a chunk, in cubes.
pub const CHUNK_SIZE: usize = 16;

/// Number of cubes in one layer of a chunk: those that share a `z`.
pub const CHUNK_LAYER: usize = 256;

/// Number of cubes in a chunk.
pub const CHUNK_VOLUME: usize = 4096;

/// Vertices emitted for one cube: four for each of its six faces.
pub const VERTICES_PER_CUBE: usize = 24;

/// Triangle corners emitted for one cube: two triangles for each of its six faces.
pub const INDICES_PER_CUBE: usize = 36;

/// Grid coordinates of the cube stored at flat index `i`: `x` varies fastest, then `y`, then `z`.
pub open spec fn position_of(i: int) -> (int, int, int) {
    let size = CHUNK_SIZE as int;
    let layer = CHUNK_LAYER as int;
    (i % size, (i / size) % size, i / layer)
}

/// Flat index of the cube at grid coordinates `(x, y, z)`.
pub open spec fn index_of(p: (int, int, int)) -> int {
    p.0 + p.1 * CHUNK_SIZE + p.2 * CHUNK_LAYER
}

/// Whether `p` lies inside a chunk.
pub open spec fn in_chunk(p: (int, int, int)) -> bool {
    0 <= p.0 < CHUNK_SIZE && 0 <= p.1 < CHUNK_SIZE && 0 <= p.2 < CHUNK_SIZE
}

/// Corner `k` of the cube centred at `c`. Corners 0 to 3 lie on the front
/// (`+z`) side and 4 to 7 on the back: bottom-left, bottom-right, top-right,
/// top-left as seen from the front, then bottom-right, bottom-left, top-left,
/// top-right.
pub open spec fn cube_corner(c: (int, int, int), k: int) -> (int, int, int) {
    let r = Cube::CUBE_RENDER_SIZE as int;
    if k == 0 {
        (c.0 - r, c.1 - r, c.2 + r)
    } else if k == 1 {
        (c.0 + r, c.1 - r, c.2 + r)
    } else if k == 2 {
        (c.0 + r, c.1 + r, c.2 + r)
    } else if k == 3 {
        (c.0 - r, c.1 + r, c.2 + r)
    } else if k == 4 {
        (c.0 + r, c.1 - r, c.2 - r)
    } else if k == 5 {
        (c.0 - r, c.1 - r, c.2 - r)
    } else if k == 6 {
        (c.0 - r, c.1 + r, c.2 - r)
    } else {
        (c.0 + r, c.1 + r, c.2 - r)
    }
}

/// The four corners of each face, in the order its vertices are emitted.
/// Faces are numbered front, back, right, left, top, bottom.
pub open spec fn face_corners(face: int) -> Seq<int> {
    if face == 0 {
        seq![0, 1, 2, 3]
    } else if face == 1 {
        seq![4, 5, 6, 7]
    } else if face == 2 {
        seq![1, 4, 7, 2]
    } else if face == 3 {
        seq![5, 0, 3, 6]
    } else if face == 4 {
        seq![3, 2, 7, 6]
    } else {
        seq![5, 4, 1, 0]
    }
}

/// The unit vector pointing out of each face: `+z`, `-z`, `+x`, `-x`, `+y`, `-y`.
pub open spec fn face_normal(face: int) -> (int, int, int) {
    if face == 0 {
        (0, 0, 1)
    } else if face == 1 {
        (0, 0, -1)
    } else if face == 2 {
        (1, 0, 0)
    } else if face == 3 {
        (-1, 0, 0)
    } else if face == 4 {
        (0, 1, 0)
    } else {
        (0, -1, 0)
    }
}

/// The colour every vertex gets: opaque white.
pub open spec fn face_color() -> (int, int, int, int) {
    (1, 1, 1, 1)
}

/// Vertex `j` of the 24 emitted for the cube centred at `c`: corner `j % 4` of face `j / 4`.
pub open spec fn cube_vertex(c: (int, int, int), j: int) -> VertexView {
    VertexView {
        position: cube_corner(c, face_corners(j / 4)[j % 4]),
        normal: face_normal(j / 4),
        color: face_color(),
    }
}

/// The vertices emitted for the cube centred at `c`.
pub open spec fn cube_vertices(c: (int, int, int)) -> Seq<VertexView> {
    Seq::new(24, |j: int| cube_vertex(c, j))
}

/// How a quad of four vertices is cut into two triangles along the diagonal
/// from its first to its third vertex.
pub open spec fn quad_split() -> Seq<int> {
    seq![0, 1, 2, 0, 2, 3]
}

/// The triangle corners emitted for a cube whose first vertex sits at `base`.
pub open spec fn cube_indices(base: int) -> Seq<int> {
    Seq::new(36, |k: int| base + 4 * (k / 6) + quad_split()[k % 6])
}

/// The mesh after the cube at flat index `i` has been emitted into it.
pub open spec fn with_cube(mesh: MeshView, i: int) -> MeshView {
    MeshView {
        vertices: mesh.vertices + cube_vertices(position_of(i)),
        indices: mesh.indices + cube_indices(mesh.vertices.len() as int),
    }
}

/// The mesh of a grid of cubes: each active cube emitted in turn, in index order.
pub open spec fn mesh_of(cubes: Seq<Cube>) -> MeshView
    decreases cubes.len(),
{
    if cubes.len() == 0 {
        MeshView::empty()
    } else {
        let rest = mesh_of(cubes.drop_last());
        if cubes.last().is_active {
            with_cube(rest, cubes.len() - 1)
        } else {
            rest
        }
    }
}

/// How many cubes of a grid are active.
pub open spec fn active_count(cubes: Seq<Cube>) -> nat
    decreases cubes.len(),
{
    if cubes.len() == 0 {
        0
    } else {
        active_count(cubes.drop_last()) + if cubes.last().is_active {
            1nat
        } else {
            0nat
        }
    }
}

/// Difference of two lattice points.
pub open spec fn vec_sub(a: (int, int, int), b: (int, int, int)) -> (int, int, int) {
    (a.0 - b.0, a.1 - b.1, a.2 - b.2)
}

/// Cross product of two lattice vectors.
pub open spec fn vec_cross(a: (int, int, int), b: (int, int, int)) -> (int, int, int) {
    (a.1 * b.2 - a.2 * b.1, a.2 * b.0 - a.0 * b.2, a.0 * b.1 - a.1 * b.0)
}

/// Dot product of two lattice vectors.
pub open spec fn vec_dot(a: (int, int, int), b: (int, int, int)) -> int {
    a.0 * b.0 + a.1 * b.1 + a.2 * b.2
}

/// Whether `n` is one of the six unit vectors along an axis.
pub open spec fn is_axis_unit(n: (int, int, int)) -> bool {
    vec_dot(n, n) == 1
}

/// How a triangle with edge vectors `u` and `v`, both leaving its first
/// corner, is turned towards the direction `n`: positive where an eye that
/// looks against `n` sees the corners run counter-clockwise, negative where
/// it sees them run clockwise, zero where it sees the triangle edge-on or the
/// triangle has no area.
pub open spec fn orientation(u: (int, int, int), v: (int, int, int), n: (int, int, int)) -> int {
    vec_dot(vec_cross(u, v), n)
}

/// Whether the triangle `a`, `b`, `c` is drawn counter-clockwise for an eye
/// outside that looks at it against the normal its three vertices share.
pub open spec fn winds_outward(a: VertexView, b: VertexView, c: VertexView) -> bool {
    &&& a.normal == b.normal
    &&& b.normal == c.normal
    &&& orientation(vec_sub(b.position, a.position), vec_sub(c.position, a.position), a.normal) > 0
}

/// Whether the three corners of a triangle are three different vertices.
pub open spec fn non_degenerate(t: (int, int, int)) -> bool {
    t.0 != t.1 && t.1 != t.2 && t.0 != t.2
}

/// Whether `v` is a corner of the triangle `t`.
pub open spec fn has_corner(t: (int, int, int), v: int) -> bool {
    t.0 == v || t.1 == v || t.2 == v
}

/// How many corners of the triangle `t` are also corners of `u`.
pub open spec fn shared_corners(t: (int, int, int), u: (int, int, int)) -> int {
    (if has_corner(u, t.0) { 1int } else { 0int })
        + (if has_corner(u, t.1) { 1int } else { 0int })
        + (if has_corner(u, t.2) { 1int } else { 0int })
}

/// Triangle `t` of a mesh: its three corners, each the index of a vertex.
pub open spec fn triangle(mesh: MeshView, t: int) -> (int, int, int) {
    (mesh.indices[3 * t], mesh.indices[3 * t + 1], mesh.indices[3 * t + 2])
}

/// Whether quad `q` of a mesh is a face as this library emits one: vertices
/// `4q` to `4q + 3` share one axis-aligned unit normal, the six triangle
/// corners from `6q` on cut them into `(v1, v2, v3)` and `(v1, v3, v4)`, and
/// both triangles wind outward.
pub open spec fn is_face(mesh: MeshView, q: int) -> bool {
    let v = mesh.vertices;
    &&& 0 <= q
    &&& 4 * q + 4 <= v.len()
    &&& 6 * q + 6 <= mesh.indices.len()
    &&& triangle(mesh, 2 * q) == (4 * q, 4 * q + 1, 4 * q + 2)
    &&& triangle(mesh, 2 * q + 1) == (4 * q, 4 * q + 2, 4 * q + 3)
    &&& is_axis_unit(v[4 * q].normal)
    &&& v[4 * q + 3].normal == v[4 * q].normal
    &&& winds_outward(v[4 * q], v[4 * q + 1], v[4 * q + 2])
    &&& winds_outward(v[4 * q], v[4 * q + 2], v[4 * q + 3])
}

/// Decoding a flat index inside a chunk gives coordinates inside the chunk,
/// and encoding them again gives the index back.
pub proof fn lemma_position_round_trip(i: int)
    requires
        0 <= i < CHUNK_VOLUME,
    ensures
        in_chunk(position_of(i)),
        index_of(position_of(i)) == i,
{
}

/// Encoding coordinates inside a chunk gives a flat index inside the chunk,
/// and decoding it gives the coordinates back. With
/// `lemma_position_round_trip` this makes decoding a bijection between the
/// flat indices of a chunk and its grid coordinates.
pub proof fn lemma_index_round_trip(p: (int, int, int))
    requires
        in_chunk(p),
    ensures
        0 <= index_of(p) < CHUNK_VOLUME,
        position_of(index_of(p)) == p,
{
}

/// Every face of a cube looks away from the cube's centre: its normal is a
/// unit vector along an axis, and each of its four vertices lies half an edge
/// from the centre in that direction.
pub proof fn lemma_face_normal_points_outward(c: (int, int, int), j: int)
    requires
        0 <= j < VERTICES_PER_CUBE,
    ensures
        is_axis_unit(cube_vertex(c, j).normal),
        vec_dot(vec_sub(cube_vertex(c, j).position, c), cube_vertex(c, j).normal)
            == Cube::CUBE_RENDER_SIZE,
{
    let face = j / 4;
    let k = face_corners(face)[j % 4];
    let n = face_normal(face);
    let d = vec_sub(cube_corner(c, k), c);
    assert(0 <= k < 8);
    assert(d.0 == 1 || d.0 == -1);
    assert(d.1 == 1 || d.1 == -1);
    assert(d.2 == 1 || d.2 == -1);
    if face == 0 || face == 1 {
        assert(n.0 == 0 && n.1 == 0 && n.2 == d.2);
    } else if face == 2 || face == 3 {
        assert(n.0 == d.0 && n.1 == 0 && n.2 == 0);
    } else {
        assert(n.0 == 0 && n.1 == d.1 && n.2 == 0);
    }
}

/// Both triangles of every face of a cube wind outward, whichever face it is
/// and wherever the cube stands.
pub proof fn lemma_cube_faces_wind_outward(c: (int, int, int), face: int)
    requires
        0 <= face < 6,
    ensures
        winds_outward(
            cube_vertex(c, 4 * face),
            cube_vertex(c, 4 * face + 1),
            cube_vertex(c, 4 * face + 2),
        ),
        winds_outward(
            cube_vertex(c, 4 * face),
            cube_vertex(c, 4 * face + 2),
            cube_vertex(c, 4 * face + 3),
        ),
{
    let v1 = cube_vertex(c, 4 * face);
    let v2 = cube_vertex(c, 4 * face + 1);
    let v3 = cube_vertex(c, 4 * face + 2);
    let v4 = cube_vertex(c, 4 * face + 3);
    let e2 = vec_sub(v2.position, v1.position);
    let e3 = vec_sub(v3.position, v1.position);
    let e4 = vec_sub(v4.position, v1.position);
    assert((4 * face) / 4 == face && (4 * face + 1) / 4 == face);
    assert((4 * face + 2) / 4 == face && (4 * face + 3) / 4 == face);
    // For each face: the edges from its first vertex to its second, third
    // and fourth, and how the two triangles they span are turned towards the
    // face's normal.
    if face == 0 {
        assert(e2 == (2int, 0int, 0int) && e3 == (2int, 2int, 0int) && e4 == (0int, 2int, 0int));
        assert(orientation((2int, 0int, 0int), (2int, 2int, 0int), (0int, 0int, 1int)) == 4)
            by (nonlinear_arith);
        assert(orientation((2int, 2int, 0int), (0int, 2int, 0int), (0int, 0int, 1int)) == 4)
            by (nonlinear_arith);
    } else if face == 1 {
        assert(e2 == (-2int, 0int, 0int) && e3 == (-2int, 2int, 0int) && e4 == (0int, 2int, 0int));
        assert(orientation((-2int, 0int, 0int), (-2int, 2int, 0int), (0int, 0int, -1int)) == 4)
            by (nonlinear_arith);
        assert(orientation((-2int, 2int, 0int), (0int, 2int, 0int), (0int, 0int, -1int)) == 4)
            by (nonlinear_arith);
    } else if face == 2 {
        assert(e2 == (0int, 0int, -2int) && e3 == (0int, 2int, -2int) && e4 == (0int, 2int, 0int));
        assert(orientation((0int, 0int, -2int), (0int, 2int, -2int), (1int, 0int, 0int)) == 4)
            by (nonlinear_arith);
        assert(orientation((0int, 2int, -2int), (0int, 2int, 0int), (1int, 0int, 0int)) == 4)
            by (nonlinear_arith);
    } else if face == 3 {
        assert(e2 == (0int, 0int, 2int) && e3 == (0int, 2int, 2int) && e4 == (0int, 2int, 0int));
        assert(orientation((0int, 0int, 2int), (0int, 2int, 2int), (-1int, 0int, 0int)) == 4)
            by (nonlinear_arith);
        assert(orientation((0int, 2int, 2int), (0int, 2int, 0int), (-1int, 0int, 0int)) == 4)
            by (nonlinear_arith);
    } else if face == 4 {
        assert(e2 == (2int, 0int, 0int) && e3 == (2int, 0int, -2int) && e4 == (0int, 0int, -2int));
        assert(orientation((2int, 0int, 0int), (2int, 0int, -2int), (0int, 1int, 0int)) == 4)
            by (nonlinear_arith);
        assert(orientation((2int, 0int, -2int), (0int, 0int, -2int), (0int, 1int, 0int)) == 4)
            by (nonlinear_arith);
    } else {
        assert(e2 == (2int, 0int, 0int) && e3 == (2int, 0int, 2int) && e4 == (0int, 0int, 2int));
        assert(orientation((2int, 0int, 0int), (2int, 0int, 2int), (0int, -1int, 0int)) == 4)
            by (nonlinear_arith);
        assert(orientation((2int, 0int, 2int), (0int, 0int, 2int), (0int, -1int, 0int)) == 4)
            by (nonlinear_arith);
    }
}

/// The mesh of a grid holds 24 vertices and 36 triangle corners for each
/// active cube, and nothing else.
pub proof fn lemma_mesh_size(cubes: Seq<Cube>)
    ensures
        mesh_of(cubes).vertices.len() == VERTICES_PER_CUBE * active_count(cubes),
        mesh_of(cubes).indices.len() == INDICES_PER_CUBE * active_count(cubes),
    decreases cubes.len(),
{
    if cubes.len() > 0 {
        lemma_mesh_size(cubes.drop_last());
    }
}

/// Emitting a cube keeps a mesh well formed: no triangle corner, old or new,
/// names a vertex that is not there.
pub proof fn lemma_with_cube_well_formed(mesh: MeshView, i: int)
    requires
        mesh.well_formed(),
    ensures
        with_cube(mesh, i).well_formed(),
{
    let after = with_cube(mesh, i);
    assert forall|k: int| 0 <= k < after.indices.len() implies after.has_vertex(
        #[trigger] after.indices[k],
    ) by {
        if k >= mesh.indices.len() {
            let local = k - mesh.indices.len();
            assert(0 <= quad_split()[local % 6] <= 3);
        }
    }
}

/// In the mesh of any grid every triangle corner names a vertex of that mesh.
pub proof fn lemma_mesh_well_formed(cubes: Seq<Cube>)
    ensures
        mesh_of(cubes).well_formed(),
    decreases cubes.len(),
{
    if cubes.len() > 0 {
        lemma_mesh_well_formed(cubes.drop_last());
        if cubes.last().is_active {
            lemma_with_cube_well_formed(mesh_of(cubes.drop_last()), cubes.len() - 1);
        }
    }
}

/// A grid without an active cube has the empty mesh.
pub proof fn lemma_inactive_grid_has_empty_mesh(cubes: Seq<Cube>)
    requires
        forall|i: int| 0 <= i < cubes.len() ==> !(#[trigger] cubes[i]).is_active,
    ensures
        active_count(cubes) == 0,
        mesh_of(cubes) == MeshView::empty(),
    decreases cubes.len(),
{
    if cubes.len() > 0 {
        lemma_inactive_grid_has_empty_mesh(cubes.drop_last());
    }
}

/// The mesh of a grid is made of faces and nothing else: six for each active
/// cube, each one a quad as `is_face` describes.
pub proof fn lemma_mesh_is_made_of_faces(cubes: Seq<Cube>, q: int)
    requires
        0 <= q < 6 * active_count(cubes),
    ensures
        is_face(mesh_of(cubes), q),
    decreases cubes.len(),
{
    lemma_mesh_size(cubes);
    lemma_mesh_size(cubes.drop_last());
    if !cubes.last().is_active || q < 6 * active_count(cubes.drop_last()) {
        lemma_mesh_is_made_of_faces(cubes.drop_last(), q);
    } else {
        let c = position_of(cubes.len() - 1);
        let face = q - 6 * active_count(cubes.drop_last());
        let mesh = mesh_of(cubes);
        lemma_cube_faces_wind_outward(c, face);
        lemma_face_normal_points_outward(c, 4 * face);
        assert(mesh.vertices[4 * q] == cube_vertex(c, 4 * face));
        assert(mesh.vertices[4 * q + 1] == cube_vertex(c, 4 * face + 1));
        assert(mesh.vertices[4 * q + 2] == cube_vertex(c, 4 * face + 2));
        assert(mesh.vertices[4 * q + 3] == cube_vertex(c, 4 * face + 3));
    }
}

/// The two triangles of every face are proper triangles that meet in exactly
/// one edge, the diagonal of the face: each has three different corners, and
/// they have exactly two corners in common.
pub proof fn lemma_face_triangles_share_one_edge(cubes: Seq<Cube>, q: int)
    requires
        0 <= q < 6 * active_count(cubes),
    ensures
        non_degenerate(triangle(mesh_of(cubes), 2 * q)),
        non_degenerate(triangle(mesh_of(cubes), 2 * q + 1)),
        shared_corners(triangle(mesh_of(cubes), 2 * q), triangle(mesh_of(cubes), 2 * q + 1)) == 2,
        shared_corners(triangle(mesh_of(cubes), 2 * q + 1), triangle(mesh_of(cubes), 2 * q)) == 2,
{
    lemma_mesh_is_made_of_faces(cubes, q);
}

/// Every triangle of the mesh of a grid winds the same way: counter-clockwise
/// for an eye outside the cube that looks at the face against its normal.
pub proof fn lemma_triangles_wind_outward(cubes: Seq<Cube>, t: int)
    requires
        0 <= t < 12 * active_count(cubes),
    ensures
        ({
            let mesh = mesh_of(cubes);
            let (a, b, c) = triangle(mesh, t);
            &&& 0 <= a < mesh.vertices.len()
            &&& 0 <= b < mesh.vertices.len()
            &&& 0 <= c < mesh.vertices.len()
            &&& winds_outward(mesh.vertices[a], mesh.vertices[b], mesh.vertices[c])
        }),
{
    lemma_mesh_is_made_of_faces(cubes, t / 2);
}

} // verus!
