use vstd::prelude::*;

use super::super::{MeshData, PrimitiveTopology, WindingOrder};

verus! {

/// The `k`-th triangle that [`Triangulate`] yields for a convex polygon with
/// `n` vertices.
///
/// The triangles form a strip that zig-zags between the two ends of the
/// polygon: triangle `k` has the corners `head`, `left` and `right`, where
/// `left = 1 + k / 2`, `right = n - 1 - (k + 1) / 2`, and `head` is the vertex
/// just before `left` when `k` is even and just after `right` when it is odd.
pub open spec fn strip_triangle(n: int, k: int) -> (int, int, int) {
    (
        if k % 2 == 0 { k / 2 } else { n - (k + 1) / 2 },
        1 + k / 2,
        n - 1 - (k + 1) / 2,
    )
}

/// All triangles of a convex polygon with `n` vertices, in the order
/// [`Triangulate`] yields them.
pub open spec fn triangulation(n: int) -> Seq<(int, int, int)> {
    Seq::new((n - 2) as nat, |k: int| strip_triangle(n, k))
}

/// Corner `j` (0, 1 or 2) of a triangle.
pub open spec fn corner(t: (int, int, int), j: int) -> int {
    if j == 0 {
        t.0
    } else if j == 1 {
        t.1
    } else {
        t.2
    }
}

/// The index list that triangulating the face with the vertex indices `vs`
/// produces: three indices per triangle of `triangulation(vs.len())`, each a
/// corner looked up in `vs`.
pub open spec fn face_indices(vs: Seq<u16>) -> Seq<u16> {
    Seq::new(
        (3 * (vs.len() - 2)) as nat,
        |i: int| vs[corner(strip_triangle(vs.len() as int, i / 3), i % 3)],
    )
}

/// Builds a triangle-list mesh from vertices and faces.
#[derive(Clone, Debug)]
pub struct ShapeBuilder<V> {
    vertices: Vec<V>,
    indices: Vec<u16>,
    winding_order: WindingOrder,
}

impl<V> Default for ShapeBuilder<V> {
    /// An empty builder with counter-clockwise winding.
    fn default() -> (b: Self)
        ensures
            b.vertices() == Seq::<V>::empty(),
            b.indices() == Seq::<u16>::empty(),
            b.winding_order() == WindingOrder::CounterClockwise,
    {
        Self::with_capacity(0, 0)
    }
}

impl<V> ShapeBuilder<V> {
    /// The vertices added so far.
    pub closed spec fn vertices(&self) -> Seq<V> {
        self.vertices@
    }

    /// The indices added so far.
    pub closed spec fn indices(&self) -> Seq<u16> {
        self.indices@
    }

    pub closed spec fn winding_order(&self) -> WindingOrder {
        self.winding_order
    }

    /// An empty builder with room reserved for vertices and indices.
    pub fn with_capacity(vertices: usize, indices: usize) -> (b: Self)
        ensures
            b.vertices() == Seq::<V>::empty(),
            b.indices() == Seq::<u16>::empty(),
            b.winding_order() == WindingOrder::CounterClockwise,
    {
        Self {
            indices: Vec::with_capacity(indices),
            vertices: Vec::with_capacity(vertices),
            winding_order: WindingOrder::CounterClockwise,
        }
    }

    /// Appends a vertex and returns its index.
    pub fn add_vertex(&mut self, vertex: V) -> (index: u16)
        requires
            old(self).vertices().len() <= u16::MAX,
        ensures
            index == old(self).vertices().len(),
            final(self).vertices() == old(self).vertices().push(vertex),
            final(self).indices() == old(self).indices(),
            final(self).winding_order() == old(self).winding_order(),
    {
        let index = self.vertices.len();
        self.vertices.push(vertex);
        index as u16
    }

    /// Appends one triangle.
    pub fn add_tri(&mut self, tri: [u16; 3])
        ensures
            final(self).indices() == old(self).indices() + seq![tri[0], tri[1], tri[2]],
            final(self).vertices() == old(self).vertices(),
            final(self).winding_order() == old(self).winding_order(),
    {
        self.indices.push(tri[0]);
        self.indices.push(tri[1]);
        self.indices.push(tri[2]);
    }

    /// Appends a convex face, given by the indices of its vertices in
    /// winding order, as triangles.
    pub fn add_face(&mut self, vertices: &[u16])
        requires
            vertices@.len() >= 3,
        ensures
            final(self).indices() == old(self).indices() + face_indices(vertices@),
            final(self).vertices() == old(self).vertices(),
            final(self).winding_order() == old(self).winding_order(),
    {
        let n = vertices.len();
        let ghost nn = n as int;
        let ghost start = self.indices@;
        let mut triangles = Triangulate::new(n);
        let mut k: usize = 0;
        while triangles.len() > 0
            invariant
                n == vertices@.len(),
                n >= 3,
                nn == n,
                0 <= k <= n - 2,
                triangles.remaining() == triangulation(nn).subrange(k as int, nn - 2),
                self.indices@ == start + Seq::new(
                    (3 * k) as nat,
                    |i: int| vertices@[corner(strip_triangle(nn, i / 3), i % 3)],
                ),
                self.vertices@ == old(self).vertices@,
                self.winding_order == old(self).winding_order,
            decreases triangles.remaining().len(),
        {
            let ghost before = self.indices@;
            let tri = triangles.next();
            let t = tri.unwrap();
            proof {
                law_triangles_are_proper(nn, k as int);
            }
            self.add_tri([vertices[t[0]], vertices[t[1]], vertices[t[2]]]);
            assert(self.indices@ =~= start + Seq::new(
                (3 * (k + 1)) as nat,
                |i: int| vertices@[corner(strip_triangle(nn, i / 3), i % 3)],
            ));
            k = k + 1;
        }
        assert(k == n - 2);
    }

    /// Finishes the mesh as a triangle list.
    pub fn build(self) -> (mesh: MeshData<V>)
        ensures
            mesh.primitive_topology == PrimitiveTopology::TriangleList,
            mesh.winding_order == self.winding_order(),
            !mesh.has_binormals,
            mesh.indices@ == self.indices(),
            mesh.vertices@ == self.vertices(),
    {
        MeshData {
            primitive_topology: PrimitiveTopology::TriangleList,
            winding_order: self.winding_order,
            has_binormals: false,
            indices: self.indices,
            vertices: self.vertices,
        }
    }
}

/// Iterator-like triangulation of a convex polygon into a triangle strip.
#[derive(Clone, Copy, Debug)]
pub struct Triangulate {
    head: usize,
    left: usize,
    right: usize,
    alternate: bool,
}

impl Triangulate {
    #[verifier::type_invariant]
    spec fn inv(self) -> bool {
        self.left <= self.right
    }

    spec fn step(self) -> Triangulate {
        if self.alternate {
            Triangulate {
                head: self.right,
                left: self.left,
                right: (self.right - 1) as usize,
                alternate: false,
            }
        } else {
            Triangulate {
                head: self.left,
                left: (self.left + 1) as usize,
                right: self.right,
                alternate: true,
            }
        }
    }

    spec fn rest(self) -> Seq<(int, int, int)>
        decreases self.right - self.left,
    {
        if self.right > self.left {
            seq![(self.head as int, self.left as int, self.right as int)] + self.step().rest()
        } else {
            Seq::empty()
        }
    }

    /// The triangles that are still to come, in order.
    pub closed spec fn remaining(self) -> Seq<(int, int, int)> {
        self.rest()
    }

    /// The state after `k` triangles of a polygon with `n` vertices.
    spec fn state_at(n: int, k: int) -> Triangulate {
        Triangulate {
            head: (if k % 2 == 0 { k / 2 } else { n - (k + 1) / 2 }) as usize,
            left: (1 + k / 2) as usize,
            right: (n - 1 - (k + 1) / 2) as usize,
            alternate: k % 2 == 0,
        }
    }

    proof fn lemma_state_at(n: int, k: int)
        requires
            3 <= n <= usize::MAX,
            0 <= k <= n - 2,
        ensures
            Self::state_at(n, k).remaining() =~= triangulation(n).subrange(k, n - 2),
        decreases n - 2 - k,
    {
        let s = Self::state_at(n, k);
        if k < n - 2 {
            Self::lemma_state_at(n, k + 1);
            assert(s.step() == Self::state_at(n, k + 1));
            assert(s.right > s.left);
        } else {
            assert(s.right <= s.left);
        }
    }

    proof fn lemma_len(self)
        requires
            self.left <= self.right,
        ensures
            self.remaining().len() == self.right - self.left,
        decreases self.right - self.left,
    {
        if self.right > self.left {
            self.step().lemma_len();
        }
    }

    /// Starts triangulating a convex polygon with `num_vertices` vertices.
    pub fn new(num_vertices: usize) -> (t: Self)
        requires
            num_vertices >= 3,
        ensures
            t.remaining() == triangulation(num_vertices as int),
    {
        proof {
            Self::lemma_state_at(num_vertices as int, 0);
        }
        let t = Triangulate { head: 0, left: 1, right: num_vertices - 1, alternate: true };
        assert(t == Self::state_at(num_vertices as int, 0));
        assert(triangulation(num_vertices as int).subrange(0, num_vertices - 2) =~= triangulation(
            num_vertices as int,
        ));
        t
    }

    /// Yields the next triangle, or `None` when the polygon is used up.
    pub fn next(&mut self) -> (r: Option<[usize; 3]>)
        ensures
            old(self).remaining().len() == 0 ==> r is None && final(self).remaining().len() == 0,
            old(self).remaining().len() > 0 ==> {
                &&& r matches Some(t) && (t[0] as int, t[1] as int, t[2] as int) == old(
                    self,
                ).remaining()[0]
                &&& final(self).remaining() == old(self).remaining().drop_first()
            },
    {
        proof {
            use_type_invariant(&*self);
        }
        if self.right > self.left {
            let tri = [self.head, self.left, self.right];
            assert(old(self).remaining().drop_first() =~= old(self).step().remaining());
            if self.alternate {
                self.head = self.right;
                self.right = self.right - 1;
            } else {
                self.head = self.left;
                self.left = self.left + 1;
            }
            self.alternate = !self.alternate;
            assert(*self == old(self).step());
            Some(tri)
        } else {
            None
        }
    }

    /// Number of triangles still to come.
    pub fn len(&self) -> (n: usize)
        ensures
            n == self.remaining().len(),
    {
        proof {
            use_type_invariant(self);
            self.lemma_len();
        }
        self.right - self.left
    }

    /// Exact bounds on the number of triangles still to come.
    pub fn size_hint(&self) -> (r: (usize, Option<usize>))
        ensures
            r.0 == self.remaining().len(),
            r.1 == Some(r.0),
    {
        let n = self.len();
        (n, Some(n))
    }
}

/// Law: a polygon with `n >= 3` vertices is cut into `n - 2` triangles.
pub proof fn law_triangle_count(n: int)
    requires
        n >= 3,
    ensures
        triangulation(n).len() == n - 2,
{
}

/// Law: every triangle has three distinct corners, all of them vertices of
/// the polygon.
pub proof fn law_triangles_are_proper(n: int, k: int)
    requires
        n >= 3,
        0 <= k < n - 2,
    ensures
        0 <= strip_triangle(n, k).0 < n,
        0 <= strip_triangle(n, k).1 < n,
        0 <= strip_triangle(n, k).2 < n,
        strip_triangle(n, k).0 != strip_triangle(n, k).1,
        strip_triangle(n, k).1 != strip_triangle(n, k).2,
        strip_triangle(n, k).0 != strip_triangle(n, k).2,
{
}

/// Law: every triangle keeps the winding order of the polygon, i.e. its
/// corners are a rotation of an increasing triple of vertex indices.
pub proof fn law_triangles_keep_winding(n: int, k: int)
    requires
        n >= 3,
        0 <= k < n - 2,
    ensures
        ({
            let (a, b, c) = strip_triangle(n, k);
            (a < b < c) || (b < c < a) || (c < a < b)
        }),
{
}

/// Law: every vertex of the polygon is a corner of some triangle.
pub proof fn law_triangles_cover_vertices(n: int, v: int)
    requires
        n >= 3,
        0 <= v < n,
    ensures
        exists|k: int|
            0 <= k < n - 2 && (strip_triangle(n, k).0 == v || strip_triangle(n, k).1 == v
                || strip_triangle(n, k).2 == v),
{
    if v == 0 {
        assert(strip_triangle(n, 0).0 == v);
    } else if 2 * (v - 1) < n - 2 {
        let k = 2 * (v - 1);
        assert(strip_triangle(n, k).1 == v);
    } else {
        let k = 2 * (n - 1 - v) - 1;
        if k < 0 {
            // v == n - 1 only happens with the first triangle then
            assert(strip_triangle(n, 0).2 == n - 1);
            assert(v == n - 1);
        } else {
            assert(strip_triangle(n, k).2 == v);
        }
    }
}

/// Law: consecutive triangles share an edge, so the triangles form a strip.
pub proof fn law_consecutive_triangles_share_edge(n: int, k: int)
    requires
        n >= 3,
        0 <= k,
        k + 1 < n - 2,
    ensures
        ({
            let t = strip_triangle(n, k);
            let u = strip_triangle(n, k + 1);
            if k % 2 == 0 {
                u.0 == t.2 && u.1 == t.1
            } else {
                u.0 == t.1 && u.2 == t.2
            }
        }),
{
}

} // verus!
