use vstd::prelude::*;

use super::super::{
    all_triangles, lemma_flatten_all_triangles, lemma_flatten_bounded, lemma_flatten_index, triangle_has, MeshData,
};
use super::MeshDataBuilder;

verus! {

/// How a sphere is cut into triangles.
#[derive(Clone, Copy, Debug, PartialEq, Eq, Structural)]
pub enum SphereMeshType {
    Cube { subdivisions: usize },
    Ico { subdivisions: usize },
    Uv { sectors: usize, stacks: usize },
}

impl Default for SphereMeshType {
    fn default() -> (t: Self)
        ensures
            t == (SphereMeshType::Uv { sectors: 32, stacks: 18 }),
    {
        SphereMeshType::Uv { sectors: 32, stacks: 18 }
    }
}

/// Where a vertex of a UV sphere sits: at a pole, or on ring `stack` (0 is
/// the ring at the north pole) at slice `slice` (0 to `slices` inclusive; the
/// first and last slice coincide, with different texture coordinates).
#[derive(Clone, Copy, Debug, PartialEq, Eq, Structural)]
pub enum SphereVertex {
    Top,
    Ring { stack: u16, slice: u16 },
    Bottom,
}

/// Number of vertices of a UV sphere with `s` slices and `t` stacks: the two
/// poles and `t - 1` rings of `s + 1` vertices.
pub open spec fn sphere_uv_vertex_count(s: int, t: int) -> int {
    2 + (t - 1) * (s + 1)
}

/// Index of the vertex at `stack`, `slice` of a ring.
pub open spec fn sphere_uv_ring_index(s: int, stack: int, slice: int) -> int {
    1 + stack * (s + 1) + slice
}

/// The two pole triangles of slice `j`: from the north pole to ring 0, and
/// from the last ring to the south pole.
pub open spec fn sphere_uv_cap(s: int, t: int, j: int) -> Seq<u16> {
    let l = (t - 2) * (s + 1) + 1;
    let bottom = 1 + (t - 1) * (s + 1);
    seq![0u16, (j + 1) as u16, (j + 2) as u16, (j + l) as u16, (j + l + 1) as u16, bottom as u16]
}

/// The triangles at the poles, slice after slice.
pub open spec fn sphere_uv_cap_indices(s: int, t: int) -> Seq<u16> {
    Seq::new(s as nat, |j: int| sphere_uv_cap(s, t, j)).flatten()
}

/// The two triangles of the quad at slice `j` between ring `i` and ring
/// `i + 1`.
pub open spec fn sphere_uv_quad(s: int, i: int, j: int) -> Seq<u16> {
    let l1 = i * (s + 1) + 1;
    let l2 = (i + 1) * (s + 1) + 1;
    let top_left = (l1 + j) as u16;
    let top_right = (l1 + j + 1) as u16;
    let bottom_left = (l2 + j) as u16;
    let bottom_right = (l2 + j + 1) as u16;
    seq![top_left, bottom_left, bottom_right, top_left, bottom_right, top_right]
}

/// The quads between ring `i` and ring `i + 1`, slice after slice.
pub open spec fn sphere_uv_band_indices(s: int, i: int) -> Seq<u16> {
    Seq::new(s as nat, |j: int| sphere_uv_quad(s, i, j)).flatten()
}

/// The index list of a UV sphere: the pole caps, then the bands between
/// consecutive rings.
pub open spec fn sphere_uv_indices(s: int, t: int) -> Seq<u16> {
    sphere_uv_cap_indices(s, t) + Seq::new((t - 2) as nat, |i: int| sphere_uv_band_indices(s, i)).flatten()
}

proof fn lemma_sphere_uv_bounds(s: int, t: int)
    requires
        t >= 2,
        s >= 3,
        sphere_uv_vertex_count(s, t) <= u16::MAX + 1,
    ensures
        s + 1 <= 65534,
        t <= 16384,
        s * t <= 2 * ((t - 1) * (s + 1)) <= 131068,
        (t - 2) * (s + 1) + s + 1 == (t - 1) * (s + 1),
        (t - 1) * (s + 1) <= 65534,
{
    assert((t - 1) * (s + 1) >= s + 1) by (nonlinear_arith)
        requires t >= 2, s >= 0;
    assert((t - 1) * (s + 1) >= 4 * (t - 1)) by (nonlinear_arith)
        requires t >= 2, s >= 3;
    assert(s * t <= 2 * ((t - 1) * (s + 1))) by (nonlinear_arith)
        requires t >= 2, s >= 3;
    assert((t - 2) * (s + 1) + s + 1 == (t - 1) * (s + 1)) by (nonlinear_arith);
}

/// Builds a UV sphere with `num_slices` slices and `num_stacks` stacks;
/// `vertex` makes the vertex for each place.
pub fn mesh_sphere_uv<V, F: Fn(SphereVertex) -> V>(num_slices: usize, num_stacks: usize, vertex: F) -> (mesh: MeshData<V>)
    requires
        num_stacks >= 2,
        num_slices >= 3,
        sphere_uv_vertex_count(num_slices as int, num_stacks as int) <= u16::MAX + 1,
        forall|v: SphereVertex| vertex.requires((v,)),
    ensures
        ({
            let s = num_slices as int;
            let t = num_stacks as int;
            let n = sphere_uv_vertex_count(s, t);
            &&& mesh.primitive_topology == super::super::PrimitiveTopology::TriangleList
            &&& mesh.winding_order == super::super::WindingOrder::CounterClockwise
            &&& !mesh.has_binormals
            &&& mesh.vertices@.len() == n
            &&& vertex.ensures((SphereVertex::Top,), mesh.vertices@[0])
            &&& vertex.ensures((SphereVertex::Bottom,), mesh.vertices@[n - 1])
            &&& forall|i: int, j: int| 0 <= i < t - 1 && 0 <= j <= s ==> vertex.ensures(
                (SphereVertex::Ring { stack: i as u16, slice: j as u16 },),
                mesh.vertices@[#[trigger] sphere_uv_ring_index(s, i, j)],
            )
            &&& mesh.indices@ == sphere_uv_indices(s, t)
        }),
{
    let ghost s = num_slices as int;
    let ghost t = num_stacks as int;
    let ghost n = sphere_uv_vertex_count(s, t);
    proof {
        lemma_sphere_uv_bounds(s, t);
    }
    let num_vertices = num_slices * num_stacks;
    let num_indices = num_vertices * 6;

    let mut builder = MeshDataBuilder::with_capacity(num_vertices, num_indices);

    let num_stacks = num_stacks as u16;
    let num_slices = num_slices as u16;

    // add top vertex
    let top_vertex = builder.add_vertex(vertex(SphereVertex::Top));

    // add middle vertices
    let mut i: u16 = 0;
    while i < num_stacks - 1
        invariant
            s == num_slices, t == num_stacks, n == sphere_uv_vertex_count(s, t),
            builder.winding_order() == super::super::WindingOrder::CounterClockwise,
            3 <= s, 2 <= t, n <= u16::MAX + 1,
            forall|v: SphereVertex| vertex.requires((v,)),
            0 <= i <= t - 1,
            builder.vertices().len() == 1 + i * (s + 1),
            builder.indices().len() == 0,
            vertex.ensures((SphereVertex::Top,), builder.vertices()[0]),
            forall|a: int, b: int| 0 <= a < i && 0 <= b <= s ==> vertex.ensures(
                (SphereVertex::Ring { stack: a as u16, slice: b as u16 },),
                builder.vertices()[#[trigger] sphere_uv_ring_index(s, a, b)],
            ),
        decreases t - 1 - i,
    {
        proof {
            lemma_sphere_uv_bounds(s, t);
        }
        assert((i + 1) * (s + 1) == i * (s + 1) + s + 1) by (nonlinear_arith);
        assert((i + 1) * (s + 1) <= (t - 1) * (s + 1)) by (nonlinear_arith)
            requires i + 1 <= t - 1, s >= 0;
        let ghost before = builder.vertices();
        let mut j: u16 = 0;
        while j < num_slices + 1
            invariant
                s == num_slices, t == num_stacks, n == sphere_uv_vertex_count(s, t),
                builder.winding_order() == super::super::WindingOrder::CounterClockwise,
                3 <= s, 2 <= t, n <= u16::MAX + 1,
                forall|v: SphereVertex| vertex.requires((v,)),
                0 <= i < t - 1,
                i * (s + 1) + s + 1 <= (t - 1) * (s + 1),
                (t - 1) * (s + 1) <= 65534,
                s + 1 <= 65534,
                0 <= j <= s + 1,
                builder.vertices().len() == 1 + i * (s + 1) + j,
                builder.indices().len() == 0,
                builder.vertices().take(1 + i * (s + 1)) == before,
                before.len() == 1 + i * (s + 1),
                vertex.ensures((SphereVertex::Top,), before[0]),
                forall|a: int, b: int| 0 <= a < i && 0 <= b <= s ==> vertex.ensures(
                    (SphereVertex::Ring { stack: a as u16, slice: b as u16 },),
                    before[#[trigger] sphere_uv_ring_index(s, a, b)],
                ),
                forall|b: int| 0 <= b < j ==> vertex.ensures(
                    (SphereVertex::Ring { stack: i as u16, slice: b as u16 },),
                    builder.vertices()[#[trigger] sphere_uv_ring_index(s, i as int, b)],
                ),
            decreases s + 1 - j,
        {
            let ghost prev = builder.vertices();
            builder.add_vertex(vertex(SphereVertex::Ring { stack: i, slice: j }));
            assert(builder.vertices().take(1 + i * (s + 1)) =~= prev.take(1 + i * (s + 1)));
            j = j + 1;
        }
        assert forall|a: int, b: int| 0 <= a < i + 1 && 0 <= b <= s implies vertex.ensures(
            (SphereVertex::Ring { stack: a as u16, slice: b as u16 },),
            builder.vertices()[#[trigger] sphere_uv_ring_index(s, a, b)],
        ) by {
            if a < i {
                assert(sphere_uv_ring_index(s, a, b) < 1 + i * (s + 1)) by (nonlinear_arith)
                    requires a < i, 0 <= b <= s, s >= 0;
                assert(builder.vertices()[sphere_uv_ring_index(s, a, b)] == builder.vertices().take(1 + i * (s + 1))[sphere_uv_ring_index(s, a, b)]);
            }
        }
        assert(builder.vertices()[0] == builder.vertices().take(1 + i * (s + 1))[0]);
        i = i + 1;
    }

    // add bottom vertex
    let ghost rings = builder.vertices();
    let bottom_vertex = builder.add_vertex(vertex(SphereVertex::Bottom));
    let ghost verts = builder.vertices();
    assert(verts.len() == n);
    assert(verts[0] == rings[0]);
    assert forall|a: int, b: int| 0 <= a < t - 1 && 0 <= b <= s implies vertex.ensures(
        (SphereVertex::Ring { stack: a as u16, slice: b as u16 },),
        verts[#[trigger] sphere_uv_ring_index(s, a, b)],
    ) by {
        assert(sphere_uv_ring_index(s, a, b) < rings.len()) by (nonlinear_arith)
            requires a < t - 1, 0 <= b <= s, s >= 0, rings.len() == 1 + (t - 1) * (s + 1);
        assert(verts[sphere_uv_ring_index(s, a, b)] == rings[sphere_uv_ring_index(s, a, b)]);
    }

 proof {
        lemma_sphere_uv_bounds(s, t);
    }
    assert(Seq::new(0, |k: int| sphere_uv_cap(s, t, k)) =~= Seq::<Seq<u16>>::empty());
    assert(Seq::<Seq<u16>>::empty().flatten() =~= Seq::<u16>::empty());
    // add top and bottom triangles
    let l = (num_stacks - 2) * (num_slices + 1) + 1;
    let mut j: u16 = 0;
    while j < num_slices
        invariant
            s == num_slices, t == num_stacks, n == sphere_uv_vertex_count(s, t),
            builder.winding_order() == super::super::WindingOrder::CounterClockwise,
            3 <= s, 2 <= t, n <= u16::MAX + 1,
            top_vertex == 0, bottom_vertex == n - 1,
            l == (t - 2) * (s + 1) + 1,
            (t - 2) * (s + 1) + s + 1 == (t - 1) * (s + 1),
            (t - 1) * (s + 1) <= 65534,
            0 <= j <= s,
            builder.vertices() == verts,
            builder.indices() == Seq::new(j as nat, |k: int| sphere_uv_cap(s, t, k)).flatten(),
        decreases s - j,
    {
        let top1 = j + 1;
        let top2 = j + 2;
        builder.add_face([top_vertex, top1, top2]);
        let bottom1 = j + l;
        let bottom2 = j + l + 1;
        builder.add_face([bottom1, bottom2, bottom_vertex]);
        assert(Seq::new((j + 1) as nat, |k: int| sphere_uv_cap(s, t, k)) =~= Seq::new(j as nat, |k: int| sphere_uv_cap(s, t, k)).push(sphere_uv_cap(s, t, j as int)));
        proof {
            Seq::new(j as nat, |k: int| sphere_uv_cap(s, t, k)).lemma_flatten_push(sphere_uv_cap(s, t, j as int));
        }
        assert(builder.indices() =~= Seq::new((j + 1) as nat, |k: int| sphere_uv_cap(s, t, k)).flatten());
        j = j + 1;
    }

    // add quads for each stack / slice
    let ghost caps = builder.indices();
    assert(Seq::new(0, |k: int| sphere_uv_band_indices(s, k)) =~= Seq::<Seq<u16>>::empty());
    assert(caps + Seq::<Seq<u16>>::empty().flatten() =~= caps);
    let mut i: u16 = 0;
    while i < num_stacks - 2
        invariant
            s == num_slices, t == num_stacks, n == sphere_uv_vertex_count(s, t),
            builder.winding_order() == super::super::WindingOrder::CounterClockwise,
            3 <= s, 2 <= t, n <= u16::MAX + 1,
            0 <= i <= t - 2,
            builder.vertices() == verts,
            caps == sphere_uv_cap_indices(s, t),
            builder.indices() == caps + Seq::new(i as nat, |k: int| sphere_uv_band_indices(s, k)).flatten(),
        decreases t - 2 - i,
    {
        proof {
            lemma_sphere_uv_bounds(s, t);
        }
        assert((i + 1) * (s + 1) == i * (s + 1) + s + 1) by (nonlinear_arith);
        assert((i + 2) * (s + 1) <= (t - 1) * (s + 1)) by (nonlinear_arith)
            requires i + 2 <= t - 1, s >= 0;
        assert((i + 2) * (s + 1) == (i + 1) * (s + 1) + s + 1) by (nonlinear_arith);
        let l1 = i * (num_slices + 1) + 1;
        let l2 = (i + 1) * (num_slices + 1) + 1;
        let ghost row_start = builder.indices();
        assert(Seq::new(0, |k: int| sphere_uv_quad(s, i as int, k)) =~= Seq::<Seq<u16>>::empty());
        assert(row_start + Seq::<Seq<u16>>::empty().flatten() =~= row_start);
        let mut j: u16 = 0;
        while j < num_slices
            invariant
                s == num_slices, t == num_stacks, n == sphere_uv_vertex_count(s, t),
                builder.winding_order() == super::super::WindingOrder::CounterClockwise,
                3 <= s, 2 <= t, n <= u16::MAX + 1,
                0 <= i < t - 2,
                (i + 2) * (s + 1) <= (t - 1) * (s + 1),
                (i + 2) * (s + 1) == (i + 1) * (s + 1) + s + 1,
                (i + 1) * (s + 1) == i * (s + 1) + s + 1,
                (t - 1) * (s + 1) <= 65534,
                l1 == i * (s + 1) + 1,
                l2 == (i + 1) * (s + 1) + 1,
                0 <= j <= s,
                builder.vertices() == verts,
                builder.indices() == row_start + Seq::new(j as nat, |k: int| sphere_uv_quad(s, i as int, k)).flatten(),
            decreases s - j,
        {
            let top_left = l1 + j;
            let top_right = l1 + j + 1;
            let bottom_left = l2 + j;
            let bottom_right = l2 + j + 1;
            builder.add_face([top_left, bottom_left, bottom_right, top_right]);
            assert(Seq::new((j + 1) as nat, |k: int| sphere_uv_quad(s, i as int, k)) =~= Seq::new(j as nat, |k: int| sphere_uv_quad(s, i as int, k)).push(sphere_uv_quad(s, i as int, j as int)));
            proof {
                Seq::new(j as nat, |k: int| sphere_uv_quad(s, i as int, k)).lemma_flatten_push(sphere_uv_quad(s, i as int, j as int));
            }
            assert(builder.indices() =~= row_start + Seq::new((j + 1) as nat, |k: int| sphere_uv_quad(s, i as int, k)).flatten());
            j = j + 1;
        }
        assert(Seq::new((i + 1) as nat, |k: int| sphere_uv_band_indices(s, k)) =~= Seq::new(i as nat, |k: int| sphere_uv_band_indices(s, k)).push(sphere_uv_band_indices(s, i as int)));
        proof {
            Seq::new(i as nat, |k: int| sphere_uv_band_indices(s, k)).lemma_flatten_push(sphere_uv_band_indices(s, i as int));
        }
        i = i + 1;
    }
    builder.build()
}

/// Law: a UV sphere has `6 * slices * (stacks - 1)` indices, and every index
/// names one of its vertices.
pub proof fn law_sphere_uv_indices_name_vertices(s: int, t: int)
    requires
        t >= 2,
        s >= 3,
        sphere_uv_vertex_count(s, t) <= u16::MAX + 1,
    ensures
        sphere_uv_indices(s, t).len() == 6 * s * (t - 1),
        forall|q: int| 0 <= q < sphere_uv_indices(s, t).len() ==>
            (#[trigger] sphere_uv_indices(s, t)[q]) < sphere_uv_vertex_count(s, t),
{
    let n = sphere_uv_vertex_count(s, t);
    lemma_sphere_uv_bounds(s, t);
    let caps = Seq::new(s as nat, |j: int| sphere_uv_cap(s, t, j));
    let bands = Seq::new((t - 2) as nat, |i: int| sphere_uv_band_indices(s, i));
    lemma_flatten_bounded(caps, 6, n);
    assert forall|i: int| 0 <= i < bands.len() implies {
        &&& (#[trigger] bands[i]).len() == 6 * s
        &&& forall|q: int| 0 <= q < 6 * s ==> bands[i][q] < n
    } by {
        let quads = Seq::new(s as nat, |j: int| sphere_uv_quad(s, i, j));
        assert((i + 1) * (s + 1) <= (t - 2) * (s + 1)) by (nonlinear_arith)
            requires i + 1 <= t - 2, s >= 0;
        assert((i + 1) * (s + 1) == i * (s + 1) + s + 1) by (nonlinear_arith);
        assert(i * (s + 1) >= 0) by (nonlinear_arith)
            requires i >= 0, s >= 0;
        lemma_flatten_bounded(quads, 6, n);
        assert(s * 6 == 6 * s);
    }
    lemma_flatten_bounded(bands, 6 * s, n);
    assert((t - 2) * (6 * s) + s * 6 == 6 * s * (t - 1)) by (nonlinear_arith);
}

/// Whether the three corners of a triangle are different vertices.
pub open spec fn distinct_corners() -> spec_fn(u16, u16, u16) -> bool {
    |a: u16, b: u16, c: u16| a != b && b != c && a != c
}

/// The index of the vertex at `stack`, `slice` of a ring, as an index.
pub open spec fn ring_vertex(s: int, stack: int, slice: int) -> u16 {
    sphere_uv_ring_index(s, stack, slice) as u16
}

proof fn lemma_cap_triangles(s: int, t: int, j: int)
    requires
        t >= 2,
        s >= 3,
        sphere_uv_vertex_count(s, t) <= u16::MAX + 1,
        0 <= j < s,
    ensures
        sphere_uv_cap(s, t, j).len() == 6,
        sphere_uv_cap(s, t, j) == seq![
            0u16, ring_vertex(s, 0, j), ring_vertex(s, 0, j + 1),
            ring_vertex(s, t - 2, j), ring_vertex(s, t - 2, j + 1),
            (sphere_uv_vertex_count(s, t) - 1) as u16,
        ],
        all_triangles(sphere_uv_cap(s, t, j), distinct_corners()),
{
    lemma_sphere_uv_bounds(s, t);
    let l = (t - 2) * (s + 1) + 1;
    assert(sphere_uv_ring_index(s, t - 2, j) == j + l);
    assert((t - 2) * (s + 1) >= 0) by (nonlinear_arith) requires t >= 2, s >= 0;
    let c = sphere_uv_cap(s, t, j);
    assert(c == seq![
        0u16, ring_vertex(s, 0, j), ring_vertex(s, 0, j + 1),
        ring_vertex(s, t - 2, j), ring_vertex(s, t - 2, j + 1),
        (sphere_uv_vertex_count(s, t) - 1) as u16,
    ]);
    assert(c.len() / 3 == 2);
    assert(triangle_has(c, 0, distinct_corners()));
    assert(triangle_has(c, 1, distinct_corners()));
    assert forall|k: int| 0 <= k < c.len() / 3 implies #[trigger] triangle_has(c, k, distinct_corners()) by {
        assert(k == 0 || k == 1);
    }
}

proof fn lemma_quad_triangles(s: int, t: int, i: int, j: int)
    requires
        t >= 2,
        s >= 3,
        sphere_uv_vertex_count(s, t) <= u16::MAX + 1,
        0 <= i < t - 2,
        0 <= j < s,
    ensures
        sphere_uv_quad(s, i, j).len() == 6,
        sphere_uv_quad(s, i, j) == seq![
            ring_vertex(s, i, j), ring_vertex(s, i + 1, j), ring_vertex(s, i + 1, j + 1),
            ring_vertex(s, i, j), ring_vertex(s, i + 1, j + 1), ring_vertex(s, i, j + 1),
        ],
        all_triangles(sphere_uv_quad(s, i, j), distinct_corners()),
{
    lemma_sphere_uv_bounds(s, t);
    assert((i + 1) * (s + 1) == i * (s + 1) + s + 1) by (nonlinear_arith);
    assert((i + 2) * (s + 1) <= (t - 1) * (s + 1)) by (nonlinear_arith)
        requires i + 2 <= t - 1, s >= 0;
    assert((i + 2) * (s + 1) == i * (s + 1) + 2 * (s + 1)) by (nonlinear_arith);
    assert(i * (s + 1) >= 0) by (nonlinear_arith) requires i >= 0, s >= 0;
    let c = sphere_uv_quad(s, i, j);
    assert(c == seq![
        ring_vertex(s, i, j), ring_vertex(s, i + 1, j), ring_vertex(s, i + 1, j + 1),
        ring_vertex(s, i, j), ring_vertex(s, i + 1, j + 1), ring_vertex(s, i, j + 1),
    ]);
    assert(c.len() / 3 == 2);
    assert(triangle_has(c, 0, distinct_corners()));
    assert(triangle_has(c, 1, distinct_corners()));
    assert forall|k: int| 0 <= k < c.len() / 3 implies #[trigger] triangle_has(c, k, distinct_corners()) by {
        assert(k == 0 || k == 1);
    }
}

/// Law: the triangles of a UV sphere join neighbouring vertices. The cap at
/// slice `j` joins the north pole to ring 0 at slices `j` and `j + 1`, and
/// the last ring at slices `j` and `j + 1` to the south pole; the quad of
/// band `i` at slice `j` uses exactly the ring vertices at slices `j` and
/// `j + 1` of rings `i` and `i + 1`, as two triangles with the same turn.
/// Every triangle has three different corners.
pub proof fn law_sphere_uv_triangles_join_neighbours(s: int, t: int)
    requires
        t >= 2,
        s >= 3,
        sphere_uv_vertex_count(s, t) <= u16::MAX + 1,
    ensures
        forall|j: int| #![trigger ring_vertex(s, 0, j)] 0 <= j < s ==>
            sphere_uv_indices(s, t).subrange(6 * j, 6 * j + 6) == seq![
                0u16, ring_vertex(s, 0, j), ring_vertex(s, 0, j + 1),
                ring_vertex(s, t - 2, j), ring_vertex(s, t - 2, j + 1),
                (sphere_uv_vertex_count(s, t) - 1) as u16,
            ],
        forall|i: int, j: int| #![trigger ring_vertex(s, i, j)] 0 <= i < t - 2 && 0 <= j < s ==>
            sphere_uv_indices(s, t).subrange(6 * s + 6 * s * i + 6 * j, 6 * s + 6 * s * i + 6 * j + 6)
                == seq![
                ring_vertex(s, i, j), ring_vertex(s, i + 1, j), ring_vertex(s, i + 1, j + 1),
                ring_vertex(s, i, j), ring_vertex(s, i + 1, j + 1), ring_vertex(s, i, j + 1),
            ],
        all_triangles(sphere_uv_indices(s, t), distinct_corners()),
{
    let caps = Seq::new(s as nat, |j: int| sphere_uv_cap(s, t, j));
    let bands = Seq::new((t - 2) as nat, |i: int| sphere_uv_band_indices(s, i));
    let idx = sphere_uv_indices(s, t);
    assert forall|j: int| 0 <= j < caps.len() implies (#[trigger] caps[j]).len() == 6 by {
        lemma_cap_triangles(s, t, j);
    }
    lemma_flatten_index(caps, 6, 0, 0);
    let cf = caps.flatten();
    assert(cf.len() == 6 * s);
    assert(idx == cf + bands.flatten());
    assert forall|j: int| #![trigger ring_vertex(s, 0, j)] 0 <= j < s implies
        idx.subrange(6 * j, 6 * j + 6) == seq![
            0u16, ring_vertex(s, 0, j), ring_vertex(s, 0, j + 1),
            ring_vertex(s, t - 2, j), ring_vertex(s, t - 2, j + 1),
            (sphere_uv_vertex_count(s, t) - 1) as u16,
        ] by {
        lemma_cap_triangles(s, t, j);
        assert forall|q: int| 0 <= q < 6 implies idx[6 * j + q] == caps[j][q] by {
            lemma_flatten_index(caps, 6, j, q);
        }
        assert(idx.subrange(6 * j, 6 * j + 6) =~= caps[j]);
    }
    // bands
    assert forall|i: int| 0 <= i < bands.len() implies (#[trigger] bands[i]).len() == 6 * s by {
        let quads = Seq::new(s as nat, |j: int| sphere_uv_quad(s, i, j));
        assert forall|j: int| 0 <= j < quads.len() implies (#[trigger] quads[j]).len() == 6 by {
            lemma_quad_triangles(s, t, i, j);
        }
        lemma_flatten_index(quads, 6, 0, 0);
        assert(quads.len() * 6 == 6 * s);
    }
    assert forall|i: int, j: int| #![trigger ring_vertex(s, i, j)] 0 <= i < t - 2 && 0 <= j < s implies
        idx.subrange(6 * s + 6 * s * i + 6 * j, 6 * s + 6 * s * i + 6 * j + 6) == seq![
            ring_vertex(s, i, j), ring_vertex(s, i + 1, j), ring_vertex(s, i + 1, j + 1),
            ring_vertex(s, i, j), ring_vertex(s, i + 1, j + 1), ring_vertex(s, i, j + 1),
        ] by {
        lemma_quad_triangles(s, t, i, j);
        let quads = Seq::new(s as nat, |k: int| sphere_uv_quad(s, i, k));
        assert forall|k: int| 0 <= k < quads.len() implies (#[trigger] quads[k]).len() == 6 by {
            lemma_quad_triangles(s, t, i, k);
        }
        assert(bands[i] == quads.flatten());
        assert forall|q: int| 0 <= q < 6 implies idx[6 * s + 6 * s * i + 6 * j + q] == quads[j][q] by {
            lemma_flatten_index(quads, 6, j, q);
            lemma_flatten_index(bands, 6 * s, i, 6 * j + q);
            assert((6 * s) * i == 6 * s * i) by (nonlinear_arith);
            assert(idx[6 * s + 6 * s * i + 6 * j + q] == bands.flatten()[6 * s * i + 6 * j + q]);
        }
        lemma_flatten_index(bands, 6 * s, i, 6 * j + 5);
        assert((6 * s) * i == 6 * s * i) by (nonlinear_arith);
        assert(idx.len() == 6 * s + bands.flatten().len());
        assert(6 * s + 6 * s * i + 6 * j + 6 <= idx.len());
        assert(idx.subrange(6 * s + 6 * s * i + 6 * j, 6 * s + 6 * s * i + 6 * j + 6) =~= quads[j]);
    }
    // distinct corners
    assert forall|j: int| 0 <= j < caps.len() implies all_triangles(#[trigger] caps[j], distinct_corners()) by {
        lemma_cap_triangles(s, t, j);
    }
    lemma_flatten_all_triangles(caps, distinct_corners());
    assert forall|i: int| 0 <= i < bands.len() implies all_triangles(#[trigger] bands[i], distinct_corners()) by {
        let quads = Seq::new(s as nat, |k: int| sphere_uv_quad(s, i, k));
        assert forall|k: int| 0 <= k < quads.len() implies all_triangles(#[trigger] quads[k], distinct_corners()) by {
            lemma_quad_triangles(s, t, i, k);
        }
        lemma_flatten_all_triangles(quads, distinct_corners());
    }
    lemma_flatten_all_triangles(bands, distinct_corners());
    let both = seq![cf, bands.flatten()];
    assert(both.drop_first() =~= seq![bands.flatten()]);
    assert(seq![bands.flatten()].drop_first() =~= Seq::<Seq<u16>>::empty());
    assert(Seq::<Seq<u16>>::empty().flatten() =~= Seq::<u16>::empty());
    assert(seq![bands.flatten()].flatten() =~= bands.flatten());
    assert(both.flatten() =~= idx);
    assert forall|k: int| 0 <= k < both.len() implies all_triangles(#[trigger] both[k], distinct_corners()) by {}
    lemma_flatten_all_triangles(both, distinct_corners());
}

} // verus!
