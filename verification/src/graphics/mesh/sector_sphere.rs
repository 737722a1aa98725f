use vstd::prelude::*;

use super::{
    all_triangles, lemma_flatten_all_below, lemma_flatten_all_triangles, triangle_has, MeshData, PrimitiveTopology,
    WindingOrder,
};

verus! {

/// How a sphere is cut into triangles, by sectors (around the axis) and
/// stacks (from pole to pole).
#[derive(Clone, Copy, Debug, PartialEq, Eq, Structural)]
pub enum SphereMeshType {
    Ico { subdivisions: usize },
    Uv { sectors: usize, stacks: usize },
}

impl Default for SphereMeshType {
    fn default() -> (t: Self)
        ensures
            t == (SphereMeshType::Uv { sectors: 32, stacks: 18 }),
    {
        SphereMeshType::Uv { sectors: 32, stacks: 18 }
    }
}

/// The triangles of the cell at stack `i`, sector `j`, with `k1` the vertex
/// at its upper left and `k2` the one below it: the upper triangle unless the
/// stack touches the north pole, and the lower one unless it touches the
/// south pole.
pub open spec fn sector_cell_indices(sectors: int, stacks: int, i: int, j: int) -> Seq<u16> {
    let k1 = i * (sectors + 1) + j;
    let k2 = k1 + sectors + 1;
    (if i != 0 {
        seq![k1 as u16, k2 as u16, (k1 + 1) as u16]
    } else {
        Seq::empty()
    }) + (if i != stacks - 1 {
        seq![(k1 + 1) as u16, k2 as u16, (k2 + 1) as u16]
    } else {
        Seq::empty()
    })
}

/// The triangles of stack `i`, sector after sector.
pub open spec fn sector_row_indices(sectors: int, stacks: int, i: int) -> Seq<u16> {
    Seq::new(sectors as nat, |j: int| sector_cell_indices(sectors, stacks, i, j)).flatten()
}

/// The index list of a sphere with `sectors` sectors and `stacks` stacks,
/// stack after stack.
pub open spec fn sector_sphere_indices(sectors: int, stacks: int) -> Seq<u16> {
    Seq::new(stacks as nat, |i: int| sector_row_indices(sectors, stacks, i)).flatten()
}

/// Every index of a UV sphere names one of its vertices.
pub proof fn law_sector_sphere_indices_name_vertices(sectors: int, stacks: int)
    requires
        sectors >= 0,
        stacks >= 0,
        sector_indices_fit(sectors, stacks),
    ensures
        forall|q: int| 0 <= q < sector_sphere_indices(sectors, stacks).len() ==>
            (#[trigger] sector_sphere_indices(sectors, stacks)[q]) < (stacks + 1) * (sectors + 1),
{
    let total = (stacks + 1) * (sectors + 1);
    let r = sectors + 1;
    let rows = Seq::new(stacks as nat, |i: int| sector_row_indices(sectors, stacks, i));
    assert forall|i: int, q: int| 0 <= i < rows.len() && 0 <= q < rows[i].len() implies (#[trigger] rows[i][q]) < total by {
        let cells = Seq::new(sectors as nat, |j: int| sector_cell_indices(sectors, stacks, i, j));
        assert forall|j: int, p: int| 0 <= j < cells.len() && 0 <= p < cells[j].len() implies (#[trigger] cells[j][p]) < total by {
            let k1 = i * r + j;
            let k2 = k1 + r;
            assert(stacks >= 2 && sectors >= 1 ==> total <= u16::MAX + 2);
            assert((i + 1) * r == i * r + r && (i + 2) * r == i * r + r + r) by (nonlinear_arith);
            assert(i * r >= 0) by (nonlinear_arith) requires i >= 0, r >= 0;
            assert(stacks * r + r == total) by (nonlinear_arith)
                requires r == sectors + 1, total == (stacks + 1) * (sectors + 1);
            if i != 0 {
                assert((i + 1) * r <= stacks * r) by (nonlinear_arith)
                    requires i + 1 <= stacks, r >= 0;
            }
            if i != stacks - 1 {
                assert((i + 2) * r <= stacks * r) by (nonlinear_arith)
                    requires i + 2 <= stacks, r >= 0;
            }
        }
        lemma_flatten_all_below(cells, total);
    }
    lemma_flatten_all_below(rows, total);
}

/// Number of indices in one cell of stack `i`: three for each of its two
/// triangles that is there.
spec fn cell_len(stacks: int, i: int) -> int {
    (if i != 0 { 3int } else { 0int }) + (if i != stacks - 1 { 3int } else { 0int })
}

/// Number of indices in the first `k` stacks, per sector.
spec fn stacks_len(stacks: int, k: int) -> int {
    3 * (k - (if k >= 1 { 1int } else { 0int })) + 3 * (k - (if k >= stacks { 1int } else { 0int }))
}

proof fn lemma_row_len(sectors: int, stacks: int, i: int, j: nat)
    ensures
        Seq::new(j, |k: int| sector_cell_indices(sectors, stacks, i, k)).flatten().len() == j * cell_len(stacks, i),
    decreases j,
{
    if j > 0 {
        let m = (j - 1) as nat;
        lemma_row_len(sectors, stacks, i, m);
        let prev = Seq::new(m, |k: int| sector_cell_indices(sectors, stacks, i, k));
        let cell = sector_cell_indices(sectors, stacks, i, m as int);
        assert(Seq::new(j, |k: int| sector_cell_indices(sectors, stacks, i, k)) =~= prev.push(cell));
        prev.lemma_flatten_push(cell);
        assert(j * cell_len(stacks, i) == m * cell_len(stacks, i) + cell_len(stacks, i)) by (nonlinear_arith)
            requires m == j - 1;
    }
}

proof fn lemma_rows_len(sectors: int, stacks: int, k: nat)
    requires
        sectors >= 0,
        stacks >= 1,
        k <= stacks,
    ensures
        Seq::new(k, |i: int| sector_row_indices(sectors, stacks, i)).flatten().len() == sectors * stacks_len(stacks, k as int),
    decreases k,
{
    if k == 0 {
        assert(Seq::new(0, |i: int| sector_row_indices(sectors, stacks, i)) =~= Seq::<Seq<u16>>::empty());
        assert(Seq::<Seq<u16>>::empty().flatten() =~= Seq::<u16>::empty());
    } else {
        let m = (k - 1) as nat;
        lemma_rows_len(sectors, stacks, m);
        let prev = Seq::new(m, |i: int| sector_row_indices(sectors, stacks, i));
        let row = sector_row_indices(sectors, stacks, m as int);
        assert(Seq::new(k, |i: int| sector_row_indices(sectors, stacks, i)) =~= prev.push(row));
        prev.lemma_flatten_push(row);
        lemma_row_len(sectors, stacks, m as int, sectors as nat);
        assert(stacks_len(stacks, k as int) == stacks_len(stacks, m as int) + cell_len(stacks, m as int));
        let a = stacks_len(stacks, m as int);
        let c = cell_len(stacks, m as int);
        assert(sectors * (a + c) == sectors * a + sectors * c) by (nonlinear_arith);
    }
}

/// A UV sphere with at least one stack has two triangles per cell, except
/// in the stacks at the poles, which have one: `2 * sectors * (stacks - 1)`
/// triangles in all.
pub proof fn law_sector_sphere_triangle_count(sectors: int, stacks: int)
    requires
        sectors >= 0,
        stacks >= 1,
    ensures
        sector_sphere_indices(sectors, stacks).len() == 6 * sectors * (stacks - 1),
{
    lemma_rows_len(sectors, stacks, stacks as nat);
    assert(stacks_len(stacks, stacks) == 6 * (stacks - 1));
    assert(sectors * (6 * (stacks - 1)) == 6 * sectors * (stacks - 1)) by (nonlinear_arith);
}

/// Twice the signed area of the triangle whose corners are the grid
/// vertices `a`, `b` and `c` of a grid `r` vertices wide, taking a vertex's
/// stack (`v / r`) as its first coordinate and its sector (`v % r`) as its
/// second: positive when the corners run counter-clockwise.
pub open spec fn grid_turn(r: int, a: int, b: int, c: int) -> int {
    let (au, av) = (a / r, a % r);
    let (bu, bv) = (b / r, b % r);
    let (cu, cv) = (c / r, c % r);
    (bu - au) * (cv - av) - (bv - av) * (cu - au)
}

/// Whether a triangle is half a grid cell with its corners running
/// counter-clockwise in (stack, sector) coordinates.
pub open spec fn half_cell_counter_clockwise(r: int) -> spec_fn(u16, u16, u16) -> bool {
    |a: u16, b: u16, c: u16| grid_turn(r, a as int, b as int, c as int) == 1
}

proof fn lemma_grid_vertex(r: int, i: int, j: int)
    requires
        r > 0,
        i >= 0,
        0 <= j < r,
    ensures
        (i * r + j) / r == i,
        (i * r + j) % r == j,
{
    vstd::arithmetic::div_mod::lemma_fundamental_div_mod_converse(i * r + j, r, i, j);
}

proof fn lemma_cell_triangles(sectors: int, stacks: int, i: int, j: int)
    requires
        sectors >= 1,
        stacks >= 1,
        sector_indices_fit(sectors, stacks),
        0 <= i < stacks,
        0 <= j < sectors,
    ensures
        all_triangles(sector_cell_indices(sectors, stacks, i, j), half_cell_counter_clockwise(sectors + 1)),
{
    let r = sectors + 1;
    let p = half_cell_counter_clockwise(r);
    let k1 = i * r + j;
    let k2 = k1 + r;
    let c = sector_cell_indices(sectors, stacks, i, j);
    assert((i + 1) * r == i * r + r) by (nonlinear_arith);
    assert(i * r >= 0) by (nonlinear_arith) requires i >= 0, r >= 0;
    assert(stacks * r + r == (stacks + 1) * (sectors + 1)) by (nonlinear_arith) requires r == sectors + 1;
    lemma_grid_vertex(r, i, j);
    lemma_grid_vertex(r, i, j + 1);
    lemma_grid_vertex(r, i + 1, j);
    lemma_grid_vertex(r, i + 1, j + 1);
    let upper = seq![k1 as u16, k2 as u16, (k1 + 1) as u16];
    let lower = seq![(k1 + 1) as u16, k2 as u16, (k2 + 1) as u16];
    if i != 0 {
        assert((i + 1) * r <= stacks * r) by (nonlinear_arith) requires i + 1 <= stacks, r >= 0;
        assert(k2 <= u16::MAX);
        assert(upper[0] as int == k1 && upper[1] as int == k2 && upper[2] as int == k1 + 1);
        assert(k2 == (i + 1) * r + j && k1 + 1 == i * r + (j + 1));
        assert(k1 / r == i && k1 % r == j);
        assert(k2 / r == i + 1 && k2 % r == j);
        assert((k1 + 1) / r == i && (k1 + 1) % r == j + 1);
        assert(grid_turn(r, k1, k2, k1 + 1) == 1 * 1 - 0 * 0);
        assert(triangle_has(upper, 0, p));
    }
    if i != stacks - 1 {
        assert((i + 2) * r <= stacks * r) by (nonlinear_arith) requires i + 2 <= stacks, r >= 0;
        assert((i + 2) * r == i * r + r + r) by (nonlinear_arith);
        assert(k2 + 1 <= u16::MAX);
        assert(lower[0] as int == k1 + 1 && lower[1] as int == k2 && lower[2] as int == k2 + 1);
        assert(k2 == (i + 1) * r + j && k1 + 1 == i * r + (j + 1) && k2 + 1 == (i + 1) * r + (j + 1));
        assert(grid_turn(r, k1 + 1, k2, k2 + 1) == 1);
        assert(triangle_has(lower, 0, p));
    }
    assert forall|t: int| 0 <= t < c.len() / 3 implies #[trigger] triangle_has(c, t, p) by {
        if i != 0 && i != stacks - 1 {
            assert(c =~= upper + lower);
            if t == 0 {
                assert(c[0] == upper[0] && c[1] == upper[1] && c[2] == upper[2]);
            } else {
                assert(t == 1);
                assert(c[3] == lower[0] && c[4] == lower[1] && c[5] == lower[2]);
            }
        } else if i != 0 {
            assert(c =~= upper);
        } else if i != stacks - 1 {
            assert(c =~= lower);
        } else {
            assert(c.len() == 0);
        }
    }
}

/// Law: every triangle of a UV sphere is half a cell of its vertex grid,
/// and all of them turn the same way: their corners run counter-clockwise
/// when a vertex is placed at its stack and sector.
pub proof fn law_sector_sphere_triangles_turn_alike(sectors: int, stacks: int)
    requires
        sectors >= 0,
        stacks >= 0,
        sector_indices_fit(sectors, stacks),
    ensures
        all_triangles(sector_sphere_indices(sectors, stacks), half_cell_counter_clockwise(sectors + 1)),
{
    let p = half_cell_counter_clockwise(sectors + 1);
    let rows = Seq::new(stacks as nat, |i: int| sector_row_indices(sectors, stacks, i));
    assert forall|i: int| 0 <= i < rows.len() implies all_triangles(#[trigger] rows[i], p) by {
        let cells = Seq::new(sectors as nat, |j: int| sector_cell_indices(sectors, stacks, i, j));
        assert forall|j: int| 0 <= j < cells.len() implies all_triangles(#[trigger] cells[j], p) by {
            lemma_cell_triangles(sectors, stacks, i, j);
        }
        lemma_flatten_all_triangles(cells, p);
    }
    lemma_flatten_all_triangles(rows, p);
}

/// Whether every index of a grid of `stacks` by `sectors` cells fits in a
/// `u16`: the largest index that the triangles use is two less than the
/// number of grid vertices, and a grid with fewer than two stacks or no
/// sector has no triangles.
pub open spec fn sector_indices_fit(sectors: int, stacks: int) -> bool {
    stacks >= 2 && sectors >= 1 ==> (stacks + 1) * (sectors + 1) <= u16::MAX + 2
}

/// Builds a UV sphere whose vertices form a grid of `stacks + 1` rows of
/// `sectors + 1` vertices; `vertex` makes the vertex at row `i`, column `j`.
pub fn mesh_sphere_uv<V, F: Fn(usize, usize) -> V>(sectors: usize, stacks: usize, vertex: F) -> (mesh: MeshData<V>)
    requires
        (stacks + 1) * (sectors + 1) <= usize::MAX,
        stacks * sectors * 6 <= usize::MAX,
        sector_indices_fit(sectors as int, stacks as int),
        forall|i: usize, j: usize| i <= stacks && j <= sectors ==> vertex.requires((i, j)),
    ensures
        mesh.primitive_topology == PrimitiveTopology::TriangleList,
        mesh.winding_order == WindingOrder::CounterClockwise,
        !mesh.has_binormals,
        mesh.vertices@.len() == (stacks + 1) * (sectors + 1),
        forall|i: int, j: int| 0 <= i <= stacks && 0 <= j <= sectors ==> vertex.ensures(
            (i as usize, j as usize),
            mesh.vertices@[#[trigger] (i * (sectors + 1) + j)],
        ),
        mesh.indices@ == sector_sphere_indices(sectors as int, stacks as int),
{
    let ghost r = sectors as int + 1;
    let ghost total = (stacks + 1) * (sectors + 1);
    assert(stacks + 1 <= total && sectors + 1 <= total) by (nonlinear_arith)
        requires total == (stacks + 1) * (sectors + 1);
    let n_vertices = stacks * sectors;
    let mut vertices: Vec<V> = Vec::with_capacity(n_vertices);
    let mut indices: Vec<u16> = Vec::with_capacity(n_vertices * 2 * 3);

    let mut i: usize = 0;
    while i < stacks + 1
        invariant
            total == (stacks + 1) * (sectors + 1),
            total <= usize::MAX,
            stacks + 1 <= total,
            sectors + 1 <= total,
            r == sectors + 1,
            forall|i: usize, j: usize| i <= stacks && j <= sectors ==> vertex.requires((i, j)),
            0 <= i <= stacks + 1,
            vertices@.len() == i * r,
            indices@.len() == 0,
            forall|a: int, b: int| 0 <= a < i && 0 <= b <= sectors ==> vertex.ensures(
                (a as usize, b as usize),
                vertices@[#[trigger] (a * r + b)],
            ),
        decreases stacks + 1 - i,
    {
        assert((i + 1) * r == i * r + r) by (nonlinear_arith);
        assert((i + 1) * r <= total) by (nonlinear_arith)
            requires i + 1 <= stacks + 1, r == sectors + 1, total == (stacks + 1) * (sectors + 1);
        let ghost before = vertices@;
        let mut j: usize = 0;
        while j < sectors + 1
            invariant
                total <= usize::MAX,
                sectors + 1 <= total,
                r == sectors + 1,
                (i + 1) * r <= total,
                forall|i: usize, j: usize| i <= stacks && j <= sectors ==> vertex.requires((i, j)),
                0 <= i < stacks + 1,
                0 <= j <= sectors + 1,
                before.len() == i * r,
                vertices@.len() == i * r + j,
                vertices@.take(i * r) == before,
                indices@.len() == 0,
                forall|a: int, b: int| 0 <= a < i && 0 <= b <= sectors ==> vertex.ensures(
                    (a as usize, b as usize),
                    before[#[trigger] (a * r + b)],
                ),
                forall|b: int| 0 <= b < j ==> vertex.ensures(
                    (i as usize, b as usize),
                    vertices@[#[trigger] (i * r + b)],
                ),
            decreases sectors + 1 - j,
        {
            let v = vertex(i, j);
            let ghost prev = vertices@;
            vertices.push(v);
            assert(vertices@.take(i * r) =~= prev.take(i * r));
            j = j + 1;
        }
        assert forall|a: int, b: int| 0 <= a < i + 1 && 0 <= b <= sectors implies vertex.ensures(
            (a as usize, b as usize),
            vertices@[#[trigger] (a * r + b)],
        ) by {
            if a < i {
                assert(a * r + b < i * r) by (nonlinear_arith)
                    requires a < i, 0 <= b < r;
                assert(vertices@[a * r + b] == vertices@.take(i * r)[a * r + b]);
            }
        }
        i = i + 1;
    }
    let ghost verts = vertices@;

    let mut i: usize = 0;
    assert(Seq::new(0, |k: int| sector_row_indices(sectors as int, stacks as int, k)) =~= Seq::<Seq<u16>>::empty());
    assert(Seq::<Seq<u16>>::empty().flatten() =~= Seq::<u16>::empty());
    while i < stacks
        invariant
            total == (stacks + 1) * (sectors + 1),
            total <= usize::MAX,
            sector_indices_fit(sectors as int, stacks as int),
            r == sectors + 1,
            0 <= i <= stacks,
            vertices@ == verts,
            indices@ == Seq::new(i as nat, |k: int| sector_row_indices(sectors as int, stacks as int, k)).flatten(),
        decreases stacks - i,
    {
        assert((i + 2) * r <= total) by (nonlinear_arith)
            requires i + 1 <= stacks, r == sectors + 1, total == (stacks + 1) * (sectors + 1);
        assert((i + 1) * r == i * r + r && (i + 2) * r == i * r + r + r) by (nonlinear_arith);
        let mut k1 = i * (sectors + 1);
        let mut k2 = k1 + sectors + 1;
        let ghost row_start = indices@;
        let mut j: usize = 0;
        assert(Seq::new(0, |k: int| sector_cell_indices(sectors as int, stacks as int, i as int, k)) =~= Seq::<Seq<u16>>::empty());
        assert(row_start + Seq::<Seq<u16>>::empty().flatten() =~= row_start);
        while j < sectors
            invariant
                total == (stacks + 1) * (sectors + 1),
                total <= usize::MAX,
                sector_indices_fit(sectors as int, stacks as int),
                r == sectors + 1,
                0 <= i < stacks,
                (i + 2) * r <= total,
                (i + 2) * r == i * r + r + r,
                0 <= j <= sectors,
                k1 == i * r + j,
                k2 == k1 + sectors + 1,
                vertices@ == verts,
                indices@ == row_start + Seq::new(j as nat, |k: int| sector_cell_indices(sectors as int, stacks as int, i as int, k)).flatten(),
            decreases sectors - j,
        {
            let ghost before = indices@;
            if i != 0 {
                assert(stacks >= 2 && sectors >= 1);
                assert(k2 <= u16::MAX);
                indices.push(k1 as u16);
                indices.push(k2 as u16);
                indices.push((k1 + 1) as u16);
            }
            if i != stacks - 1 {
                assert(stacks >= 2 && sectors >= 1);
                assert((i + 2) * r <= stacks * r) by (nonlinear_arith)
                    requires i + 2 <= stacks, r >= 0;
                assert(stacks * r + r == total) by (nonlinear_arith)
                    requires r == sectors + 1, total == (stacks + 1) * (sectors + 1);
                assert(k2 + 1 <= u16::MAX);
                indices.push((k1 + 1) as u16);
                indices.push(k2 as u16);
                indices.push((k2 + 1) as u16);
            }
            let ghost cell = sector_cell_indices(sectors as int, stacks as int, i as int, j as int);
            assert(indices@ =~= before + cell);
            assert(Seq::new((j + 1) as nat, |k: int| sector_cell_indices(sectors as int, stacks as int, i as int, k)) =~= Seq::new(j as nat, |k: int| sector_cell_indices(sectors as int, stacks as int, i as int, k)).push(cell));
            proof {
                Seq::new(j as nat, |k: int| sector_cell_indices(sectors as int, stacks as int, i as int, k)).lemma_flatten_push(cell);
            }
            k1 = k1 + 1;
            k2 = k2 + 1;
            j = j + 1;
        }
        let ghost row = sector_row_indices(sectors as int, stacks as int, i as int);
        assert(Seq::new((i + 1) as nat, |k: int| sector_row_indices(sectors as int, stacks as int, k)) =~= Seq::new(i as nat, |k: int| sector_row_indices(sectors as int, stacks as int, k)).push(row));
        proof {
            Seq::new(i as nat, |k: int| sector_row_indices(sectors as int, stacks as int, k)).lemma_flatten_push(row);
        }
        i = i + 1;
    }

    MeshData {
        primitive_topology: PrimitiveTopology::TriangleList,
        winding_order: WindingOrder::CounterClockwise,
        has_binormals: false,
        indices,
        vertices,
    }
}

} // verus!
