use vstd::prelude::*;

use super::super::{MeshData, PrimitiveTopology, WindingOrder};

verus! {

/// The index list of a cuboid: two triangles per face, the faces in the
/// order bottom, left, front, back, right, top, face `f` using vertices
/// `4 * f` to `4 * f + 3`.
pub open spec fn cuboid_indices() -> Seq<u16> {
    seq![
        3u16, 1, 0, 3, 2, 1,
        7, 5, 4, 7, 6, 5,
        11, 9, 8, 11, 10, 9,
        15, 13, 12, 15, 14, 13,
        19, 17, 16, 19, 18, 17,
        23, 21, 20, 23, 22, 21,
    ]
}

/// Which corner of the cube each of the 24 vertices sits on, four per face
/// in the order bottom, left, front, back, right, top. The corners are
/// numbered `0: (-1, -1, 1)`, `1: (1, -1, 1)`, `2: (1, -1, -1)`,
/// `3: (-1, -1, -1)`, `4: (-1, 1, 1)`, `5: (1, 1, 1)`, `6: (1, 1, -1)`,
/// `7: (-1, 1, -1)`.
pub open spec fn cuboid_corners() -> Seq<usize> {
    seq![
        0usize, 1, 2, 3,
        7, 4, 0, 3,
        4, 5, 1, 0,
        6, 7, 3, 2,
        5, 6, 2, 1,
        7, 6, 5, 4,
    ]
}

/// Which corner of a face's texture square each of its four vertices takes:
/// `0: (0, 0)`, `1: (1, 0)`, `2: (0, 1)`, `3: (1, 1)`.
pub open spec fn face_tex_corners() -> Seq<usize> {
    seq![3usize, 2, 0, 1]
}

/// Where vertex `i` of a cuboid sits: a corner of the cube, the face it
/// belongs to (its normal is that face's), and the corner of the face's
/// texture square.
#[derive(Clone, Copy, Debug, PartialEq, Eq, Structural)]
pub struct CuboidVertex {
    pub corner: usize,
    pub face: usize,
    pub tex_corner: usize,
}

/// The place of vertex `i`.
pub open spec fn cuboid_vertex(i: int) -> CuboidVertex {
    CuboidVertex {
        corner: cuboid_corners()[i],
        face: (i / 4) as usize,
        tex_corner: face_tex_corners()[i % 4],
    }
}

/// The cube corner of vertex `i`.
pub fn cuboid_corner(i: usize) -> (c: usize)
    requires
        i < 24,
    ensures
        c == cuboid_corners()[i as int],
        c < 8,
{
    let corners: [usize; 24] = [
        0, 1, 2, 3,
        7, 4, 0, 3,
        4, 5, 1, 0,
        6, 7, 3, 2,
        5, 6, 2, 1,
        7, 6, 5, 4,
    ];
    assert(corners@ =~= cuboid_corners());
    corners[i]
}

/// The face of vertex `i`: faces have four vertices each.
pub fn cuboid_face(i: usize) -> (f: usize)
    requires
        i < 24,
    ensures
        f == i / 4,
        f < 6,
{
    i / 4
}

/// The corner of its face's texture square that vertex `i` takes.
pub fn cuboid_tex_corner(i: usize) -> (t: usize)
    requires
        i < 24,
    ensures
        t == face_tex_corners()[(i % 4) as int],
        t < 4,
{
    let tex_corners: [usize; 4] = [3, 2, 0, 1];
    assert(tex_corners@ =~= face_tex_corners());
    tex_corners[i % 4]
}

/// Builds a cuboid from its 24 vertices (four per face); `vertex` makes
/// the vertex for each place, vertex `i` at `cuboid_vertex(i)`.
pub fn mesh_cuboid<V, F: Fn(CuboidVertex) -> V>(vertex: F) -> (mesh: MeshData<V>)
    requires
        forall|v: CuboidVertex| vertex.requires((v,)),
    ensures
        mesh.primitive_topology == PrimitiveTopology::TriangleList,
        mesh.winding_order == WindingOrder::CounterClockwise,
        !mesh.has_binormals,
        mesh.vertices@.len() == 24,
        forall|i: int| 0 <= i < 24 ==> vertex.ensures((cuboid_vertex(i),), #[trigger] mesh.vertices@[i]),
        mesh.indices@ == cuboid_indices(),
{
    let indices: Vec<u16> = vec![
        3, 1, 0, 3, 2, 1,
        7, 5, 4, 7, 6, 5,
        11, 9, 8, 11, 10, 9,
        15, 13, 12, 15, 14, 13,
        19, 17, 16, 19, 18, 17,
        23, 21, 20, 23, 22, 21,
    ];
    assert(indices@ =~= cuboid_indices());
    let mut vertices: Vec<V> = Vec::with_capacity(24);
    let mut i: usize = 0;
    while i < 24
        invariant
            0 <= i <= 24,
            forall|v: CuboidVertex| vertex.requires((v,)),
            vertices@.len() == i,
            forall|j: int| 0 <= j < i ==> vertex.ensures((cuboid_vertex(j),), #[trigger] vertices@[j]),
        decreases 24 - i,
    {
        let place = CuboidVertex {
            corner: cuboid_corner(i),
            face: cuboid_face(i),
            tex_corner: cuboid_tex_corner(i),
        };
        assert(place == cuboid_vertex(i as int));
        let v = vertex(place);
        vertices.push(v);
        i = i + 1;
    }
    MeshData {
        primitive_topology: PrimitiveTopology::TriangleList,
        winding_order: WindingOrder::CounterClockwise,
        has_binormals: false,
        indices,
        vertices,
    }
}

/// Law: each face of a cuboid is drawn with two triangles over its own four
/// vertices.
pub proof fn law_cuboid_faces_use_their_vertices(q: int)
    requires
        0 <= q < 36,
    ensures
        cuboid_indices().len() == 36,
        4 * (q / 6) <= cuboid_indices()[q] < 4 * (q / 6) + 4,
{
}

} // verus!
