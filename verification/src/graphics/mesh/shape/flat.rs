use vstd::prelude::*;

use super::super::{lemma_flatten_bounded, MeshData, PrimitiveTopology, WindingOrder};
use super::builder::{face_indices, law_triangles_are_proper, strip_triangle, triangulation, ShapeBuilder, Triangulate};

verus! {

/// How a circle is cut into triangles.
#[derive(Clone, Copy, Debug, PartialEq, Eq, Structural)]
pub enum CircleMeshType {
    Segments { segments: usize },
    Polygon { vertices: usize },
}

/// Where a vertex of a flat circle sits: the centre, or rim vertex `index`
/// of `count` evenly spaced ones.
#[derive(Clone, Copy, Debug, PartialEq, Eq, Structural)]
pub enum CircleVertex {
    Center,
    Rim { index: usize, count: usize },
}

/// Builds a flat rectangle from its four corners, given in winding order.
pub fn mesh_rectangle<V>(a: V, b: V, c: V, d: V) -> (mesh: MeshData<V>)
    ensures
        mesh.primitive_topology == PrimitiveTopology::TriangleList,
        mesh.winding_order == WindingOrder::CounterClockwise,
        !mesh.has_binormals,
        mesh.vertices@ == seq![a, b, c, d],
        mesh.indices@ == seq![0u16, 1, 3, 3, 1, 2],
{
    let mut builder = ShapeBuilder::with_capacity(4, 6);
    let i0 = builder.add_vertex(a);
    let i1 = builder.add_vertex(b);
    let i2 = builder.add_vertex(c);
    let i3 = builder.add_vertex(d);
    let vertices = [i0, i1, i2, i3];
    builder.add_face(&vertices);
    assert(face_indices(vertices@) =~= seq![0u16, 1, 3, 3, 1, 2]);
    assert(builder.vertices() =~= seq![a, b, c, d]);
    builder.build()
}

/// The fan of a circle with `segments` rim vertices: triangle `k` joins the
/// centre (vertex 0) with rim vertices `k` and `k + 1` (vertices `k + 1` and
/// `k + 2`).
pub open spec fn circle_segment_indices(segments: int) -> Seq<u16> {
    Seq::new((segments - 1) as nat, |k: int| seq![0u16, (k + 1) as u16, (k + 2) as u16]).flatten()
}

/// Builds a circle as a fan of triangles around its centre; `vertex` makes
/// the vertex for each place. The fan joins each rim vertex to the next and
/// leaves the gap between the last and the first rim vertex open.
pub fn mesh_circle_segments<V, F: Fn(CircleVertex) -> V>(segments: usize, vertex: F) -> (mesh: MeshData<V>)
    requires
        segments >= 3,
        segments + 1 <= u16::MAX + 1,
        forall|v: CircleVertex| vertex.requires((v,)),
    ensures
        mesh.primitive_topology == PrimitiveTopology::TriangleList,
        mesh.winding_order == WindingOrder::CounterClockwise,
        !mesh.has_binormals,
        mesh.vertices@.len() == segments + 1,
        vertex.ensures((CircleVertex::Center,), mesh.vertices@[0]),
        forall|i: int| 0 <= i < segments ==> vertex.ensures(
            (CircleVertex::Rim { index: i as usize, count: segments },),
            #[trigger] mesh.vertices@[i + 1],
        ),
        mesh.indices@ == circle_segment_indices(segments as int),
{
    let mut builder = ShapeBuilder::with_capacity(segments + 1, segments * 2);
    let center = builder.add_vertex(vertex(CircleVertex::Center));
    let mut previous = builder.add_vertex(vertex(CircleVertex::Rim { index: 0, count: segments }));
    let mut i: usize = 1;
    assert(Seq::new(0, |k: int| seq![0u16, (k + 1) as u16, (k + 2) as u16]) =~= Seq::<Seq<u16>>::empty());
    assert(Seq::<Seq<u16>>::empty().flatten() =~= Seq::<u16>::empty());
    while i < segments
        invariant
            3 <= segments <= u16::MAX,
            1 <= i <= segments,
            forall|v: CircleVertex| vertex.requires((v,)),
            center == 0,
            previous == i,
            builder.winding_order() == WindingOrder::CounterClockwise,
            builder.vertices().len() == i + 1,
            vertex.ensures((CircleVertex::Center,), builder.vertices()[0]),
            forall|j: int| 0 <= j < i ==> vertex.ensures(
                (CircleVertex::Rim { index: j as usize, count: segments },),
                #[trigger] builder.vertices()[j + 1],
            ),
            builder.indices() == Seq::new((i - 1) as nat, |k: int| seq![0u16, (k + 1) as u16, (k + 2) as u16]).flatten(),
        decreases segments - i,
    {
        let ghost before = builder.vertices();
        let ghost before_indices = builder.indices();
        let v = builder.add_vertex(vertex(CircleVertex::Rim { index: i, count: segments }));
        let face = [center, previous, v];
        builder.add_face(&face);
        assert(strip_triangle(3, 0) == (0int, 1int, 2int));
        assert(face_indices(face@) =~= seq![0u16, i as u16, (i + 1) as u16]);
        assert(Seq::new(i as nat, |k: int| seq![0u16, (k + 1) as u16, (k + 2) as u16]) =~= Seq::new((i - 1) as nat, |k: int| seq![0u16, (k + 1) as u16, (k + 2) as u16]).push(seq![0u16, i as u16, (i + 1) as u16]));
        proof {
            Seq::new((i - 1) as nat, |k: int| seq![0u16, (k + 1) as u16, (k + 2) as u16]).lemma_flatten_push(seq![0u16, i as u16, (i + 1) as u16]);
        }
        assert forall|j: int| 0 <= j < i + 1 implies vertex.ensures(
            (CircleVertex::Rim { index: j as usize, count: segments },),
            #[trigger] builder.vertices()[j + 1],
        ) by {
            if j < i {
                assert(builder.vertices()[j + 1] == before[j + 1]);
            }
        }
        previous = v;
        i = i + 1;
    }
    builder.build()
}

/// The triangles of a convex polygon with `n` vertices, as an index list.
pub open spec fn polygon_indices(n: int) -> Seq<u16> {
    Seq::new(
        (n - 2) as nat,
        |k: int| seq![strip_triangle(n, k).0 as u16, strip_triangle(n, k).1 as u16, strip_triangle(n, k).2 as u16],
    ).flatten()
}

/// Builds a circle as a polygon with `vertices` rim vertices, cut into a
/// triangle strip; `vertex` makes the vertex for each place.
pub fn mesh_circle_polygon<V, F: Fn(CircleVertex) -> V>(vertices: usize, vertex: F) -> (mesh: MeshData<V>)
    requires
        vertices >= 3,
        vertices <= u16::MAX + 1,
        forall|v: CircleVertex| vertex.requires((v,)),
    ensures
        mesh.primitive_topology == PrimitiveTopology::TriangleList,
        mesh.winding_order == WindingOrder::CounterClockwise,
        !mesh.has_binormals,
        mesh.vertices@.len() == vertices,
        forall|i: int| 0 <= i < vertices ==> vertex.ensures(
            (CircleVertex::Rim { index: i as usize, count: vertices },),
            #[trigger] mesh.vertices@[i],
        ),
        mesh.indices@ == polygon_indices(vertices as int),
{
    let ghost n = vertices as int;
    let triangulate = Triangulate::new(vertices);
    let num_indices = triangulate.len() * 3;
    let mut builder = ShapeBuilder::with_capacity(vertices, num_indices);
    let mut i: usize = 0;
    while i < vertices
        invariant
            3 <= vertices <= u16::MAX + 1,
            0 <= i <= vertices,
            forall|v: CircleVertex| vertex.requires((v,)),
            builder.winding_order() == WindingOrder::CounterClockwise,
            builder.vertices().len() == i,
            builder.indices().len() == 0,
            forall|j: int| 0 <= j < i ==> vertex.ensures(
                (CircleVertex::Rim { index: j as usize, count: vertices },),
                #[trigger] builder.vertices()[j],
            ),
        decreases vertices - i,
    {
        let ghost before = builder.vertices();
        builder.add_vertex(vertex(CircleVertex::Rim { index: i, count: vertices }));
        assert forall|j: int| 0 <= j < i + 1 implies vertex.ensures(
            (CircleVertex::Rim { index: j as usize, count: vertices },),
            #[trigger] builder.vertices()[j],
        ) by {
            if j < i {
                assert(builder.vertices()[j] == before[j]);
            }
        }
        i = i + 1;
    }
    let ghost verts = builder.vertices();
    let mut triangles = Triangulate::new(vertices);
    let mut k: usize = 0;
    assert(Seq::new(0, |k: int| seq![strip_triangle(n, k).0 as u16, strip_triangle(n, k).1 as u16, strip_triangle(n, k).2 as u16]) =~= Seq::<Seq<u16>>::empty());
    assert(Seq::<Seq<u16>>::empty().flatten() =~= Seq::<u16>::empty());
    while triangles.len() > 0
        invariant
            3 <= vertices <= u16::MAX + 1,
            n == vertices,
            0 <= k <= n - 2,
            triangles.remaining() == triangulation(n).subrange(k as int, n - 2),
            builder.winding_order() == WindingOrder::CounterClockwise,
            builder.vertices() == verts,
            builder.indices() == Seq::new(k as nat, |k: int| seq![strip_triangle(n, k).0 as u16, strip_triangle(n, k).1 as u16, strip_triangle(n, k).2 as u16]).flatten(),
        decreases triangles.remaining().len(),
    {
        let t = triangles.next().unwrap();
        proof {
            law_triangles_are_proper(n, k as int);
        }
        builder.add_tri([t[0] as u16, t[1] as u16, t[2] as u16]);
        let ghost row = seq![strip_triangle(n, k as int).0 as u16, strip_triangle(n, k as int).1 as u16, strip_triangle(n, k as int).2 as u16];
        assert(Seq::new((k + 1) as nat, |k: int| seq![strip_triangle(n, k).0 as u16, strip_triangle(n, k).1 as u16, strip_triangle(n, k).2 as u16]) =~= Seq::new(k as nat, |k: int| seq![strip_triangle(n, k).0 as u16, strip_triangle(n, k).1 as u16, strip_triangle(n, k).2 as u16]).push(row));
        proof {
            Seq::new(k as nat, |k: int| seq![strip_triangle(n, k).0 as u16, strip_triangle(n, k).1 as u16, strip_triangle(n, k).2 as u16]).lemma_flatten_push(row);
        }
        k = k + 1;
    }
    builder.build()
}

/// Law: the fan of a circle with `segments` rim vertices has
/// `segments - 1` triangles, and every index names one of its
/// `segments + 1` vertices.
pub proof fn law_circle_segment_indices_name_vertices(segments: int)
    requires
        3 <= segments <= u16::MAX,
    ensures
        circle_segment_indices(segments).len() == 3 * (segments - 1),
        forall|q: int| 0 <= q < circle_segment_indices(segments).len() ==>
            (#[trigger] circle_segment_indices(segments)[q]) < segments + 1,
{
    let tris = Seq::new((segments - 1) as nat, |k: int| seq![0u16, (k + 1) as u16, (k + 2) as u16]);
    lemma_flatten_bounded(tris, 3, segments + 1);
}

/// Law: the polygon of a circle with `n` rim vertices has `n - 2`
/// triangles, and every index names one of its vertices.
pub proof fn law_polygon_indices_name_vertices(n: int)
    requires
        3 <= n <= u16::MAX + 1,
    ensures
        polygon_indices(n).len() == 3 * (n - 2),
        forall|q: int| 0 <= q < polygon_indices(n).len() ==> (#[trigger] polygon_indices(n)[q]) < n,
{
    let tris = Seq::new(
        (n - 2) as nat,
        |k: int| seq![strip_triangle(n, k).0 as u16, strip_triangle(n, k).1 as u16, strip_triangle(n, k).2 as u16],
    );
    assert forall|i: int, q: int| 0 <= i < tris.len() && 0 <= q < 3 implies (#[trigger] tris[i][q]) < n by {
        law_triangles_are_proper(n, i);
    }
    lemma_flatten_bounded(tris, 3, n);
}

} // verus!
