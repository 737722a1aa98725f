pub mod sector_sphere;
pub mod shape;

use vstd::prelude::*;

verus! {

/// How the index list of a mesh is to be read.
#[derive(Clone, Copy, Debug, PartialEq, Eq, Structural)]
pub enum PrimitiveTopology {
    PointList,
    LineList,
    LineStrip,
    TriangleList,
    TriangleStrip,
}

/// Orientation of front faces.
#[derive(Clone, Copy, Debug, PartialEq, Eq, Structural)]
pub enum WindingOrder {
    Clockwise,
    CounterClockwise,
}

/// Mesh data as produced by the shape builders: the index list and the
/// vertices it refers to.
///
/// The builders fix the topology only. Tangents and bitangents (binormals)
/// are computed from vertex positions and texture coordinates, which are
/// floating point, so they are left to the caller: every builder returns
/// `has_binormals == false`, and a caller that fills them in sets the flag.
#[derive(Clone, Debug)]
pub struct MeshData<V> {
    pub primitive_topology: PrimitiveTopology,
    pub winding_order: WindingOrder,
    pub has_binormals: bool,
    pub indices: Vec<u16>,
    pub vertices: Vec<V>,
}

/// Bounds on a flattened sequence of equally long index lists.
pub proof fn lemma_flatten_bounded(ss: Seq<Seq<u16>>, m: int, bound: int)
    requires
        forall|i: int| 0 <= i < ss.len() ==> (#[trigger] ss[i]).len() == m,
        forall|i: int, q: int| 0 <= i < ss.len() && 0 <= q < m ==> (#[trigger] ss[i][q]) < bound,
    ensures
        ss.flatten().len() == ss.len() * m,
        forall|q: int| 0 <= q < ss.flatten().len() ==> (#[trigger] ss.flatten()[q]) < bound,
    decreases ss.len(),
{
    if ss.len() > 0 {
        let rest = ss.drop_first();
        lemma_flatten_bounded(rest, m, bound);
        assert(ss.flatten() == ss.first() + rest.flatten());
        assert(ss.len() * m == m + rest.len() * m) by (nonlinear_arith)
            requires rest.len() == ss.len() - 1;
        assert forall|q: int| 0 <= q < ss.flatten().len() implies (#[trigger] ss.flatten()[q]) < bound by {
            if q < m {
                assert(ss.flatten()[q] == ss[0][q]);
            } else {
                assert(ss.flatten()[q] == rest.flatten()[q - m]);
            }
        }
    }
}

/// Every entry of a flattened sequence of index lists is below `bound` when
/// every entry of every list is.
pub proof fn lemma_flatten_all_below(ss: Seq<Seq<u16>>, bound: int)
    requires
        forall|i: int, q: int| 0 <= i < ss.len() && 0 <= q < ss[i].len() ==> (#[trigger] ss[i][q]) < bound,
    ensures
        forall|q: int| 0 <= q < ss.flatten().len() ==> (#[trigger] ss.flatten()[q]) < bound,
    decreases ss.len(),
{
    if ss.len() > 0 {
        let rest = ss.drop_first();
        assert forall|i: int, q: int| 0 <= i < rest.len() && 0 <= q < rest[i].len() implies (#[trigger] rest[i][q]) < bound by {
            assert(rest[i] == ss[i + 1]);
        }
        lemma_flatten_all_below(rest, bound);
        assert(ss.flatten() == ss.first() + rest.flatten());
        assert forall|q: int| 0 <= q < ss.flatten().len() implies (#[trigger] ss.flatten()[q]) < bound by {
            if q < ss[0].len() {
                assert(ss.flatten()[q] == ss[0][q]);
            } else {
                assert(ss.flatten()[q] == rest.flatten()[q - ss[0].len()]);
            }
        }
    }
}

/// Whether triangle `t` of an index list, its corners at `3 * t`,
/// `3 * t + 1` and `3 * t + 2`, has property `p`.
pub open spec fn triangle_has(indices: Seq<u16>, t: int, p: spec_fn(u16, u16, u16) -> bool) -> bool {
    p(indices[3 * t], indices[3 * t + 1], indices[3 * t + 2])
}

/// Whether an index list is made of whole triangles, each with property
/// `p`.
pub open spec fn all_triangles(indices: Seq<u16>, p: spec_fn(u16, u16, u16) -> bool) -> bool {
    &&& indices.len() % 3 == 0
    &&& forall|t: int| 0 <= t < indices.len() / 3 ==> #[trigger] triangle_has(indices, t, p)
}

/// Index lists made of whole triangles with a property give, put one after
/// the other, an index list of whole triangles with that property.
pub proof fn lemma_flatten_all_triangles(ss: Seq<Seq<u16>>, p: spec_fn(u16, u16, u16) -> bool)
    requires
        forall|i: int| 0 <= i < ss.len() ==> all_triangles(#[trigger] ss[i], p),
    ensures
        all_triangles(ss.flatten(), p),
    decreases ss.len(),
{
    if ss.len() == 0 {
        assert(ss.flatten().len() == 0);
    } else {
        let first = ss[0];
        let rest = ss.drop_first();
        assert forall|i: int| 0 <= i < rest.len() implies all_triangles(#[trigger] rest[i], p) by {
            assert(rest[i] == ss[i + 1]);
        }
        lemma_flatten_all_triangles(rest, p);
        assert(all_triangles(first, p));
        let f = ss.flatten();
        let r = rest.flatten();
        assert(f == first + r);
        let m = first.len() / 3;
        assert(first.len() == 3 * m);
        assert(f.len() == 3 * m + r.len());
        assert forall|t: int| 0 <= t < f.len() / 3 implies #[trigger] triangle_has(f, t, p) by {
            if t < m {
                assert(triangle_has(first, t, p));
                assert(f[3 * t] == first[3 * t]);
                assert(f[3 * t + 1] == first[3 * t + 1]);
                assert(f[3 * t + 2] == first[3 * t + 2]);
            } else {
                let u = t - m;
                assert(0 <= u < r.len() / 3);
                assert(triangle_has(r, u, p));
                assert(f[3 * t] == r[3 * u]);
                assert(f[3 * t + 1] == r[3 * u + 1]);
                assert(f[3 * t + 2] == r[3 * u + 2]);
            }
        }
    }
}

/// Entry `q` of list `i` of equally long lists sits at `m * i + q` once
/// they are put one after the other.
pub proof fn lemma_flatten_index(ss: Seq<Seq<u16>>, m: int, i: int, q: int)
    requires
        forall|k: int| 0 <= k < ss.len() ==> (#[trigger] ss[k]).len() == m,
        0 <= i < ss.len(),
        0 <= q < m,
    ensures
        ss.flatten().len() == ss.len() * m,
        m * i + q < ss.flatten().len(),
        ss.flatten()[m * i + q] == ss[i][q],
    decreases ss.len(),
{
    let rest = ss.drop_first();
    assert forall|k: int| 0 <= k < rest.len() implies (#[trigger] rest[k]).len() == m by {
        assert(rest[k] == ss[k + 1]);
    }
    assert(ss.flatten() == ss[0] + rest.flatten());
    if rest.len() > 0 {
        lemma_flatten_index(rest, m, if i > 0 { i - 1 } else { 0 }, q);
    } else {
        assert(rest.flatten().len() == 0);
        assert(rest.len() * m == 0) by (nonlinear_arith) requires rest.len() == 0;
    }
    assert(ss.len() * m == m + rest.len() * m) by (nonlinear_arith)
        requires rest.len() == ss.len() - 1;
    if i > 0 {
        assert(m * i + q == m + (m * (i - 1) + q)) by (nonlinear_arith);
        assert(rest[i - 1] == ss[i]);
        assert(m * (i - 1) + q < rest.len() * m) by (nonlinear_arith)
            requires i - 1 < rest.len(), 0 <= q < m;
    } else {
        assert(m * i + q == q) by (nonlinear_arith) requires i == 0;
        assert(rest.len() * m >= 0) by (nonlinear_arith) requires m >= 0;
    }
}

} // verus!
