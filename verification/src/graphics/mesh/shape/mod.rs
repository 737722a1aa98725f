pub mod builder;
pub mod cuboid;
pub mod flat;
pub mod quad;
pub mod sphere;

use vstd::prelude::*;

use super::{MeshData, PrimitiveTopology, WindingOrder};

verus! {

/// Builds a triangle-list mesh from vertices and triangle or quad faces.
#[derive(Clone, Debug)]
pub struct MeshDataBuilder<V> {
    vertices: Vec<V>,
    indices: Vec<u16>,
    winding_order: WindingOrder,
}

impl<V> Default for MeshDataBuilder<V> {
    /// An empty builder with counter-clockwise winding.
    fn default() -> (b: Self)
        ensures
            b.vertices() == Seq::<V>::empty(),
            b.indices() == Seq::<u16>::empty(),
            b.winding_order() == WindingOrder::CounterClockwise,
    {
        Self::with_capacity(0, 0)
    }
}

impl<V> MeshDataBuilder<V> {
    /// The vertices added so far.
    pub closed spec fn vertices(&self) -> Seq<V> {
        self.vertices@
    }

    /// The indices added so far.
    pub closed spec fn indices(&self) -> Seq<u16> {
        self.indices@
    }

    pub closed spec fn winding_order(&self) -> WindingOrder {
        self.winding_order
    }

    /// An empty builder with room reserved for vertices and indices.
    pub fn with_capacity(vertices: usize, indices: usize) -> (b: Self)
        ensures
            b.vertices() == Seq::<V>::empty(),
            b.indices() == Seq::<u16>::empty(),
            b.winding_order() == WindingOrder::CounterClockwise,
    {
        Self {
            indices: Vec::with_capacity(indices),
            vertices: Vec::with_capacity(vertices),
            winding_order: WindingOrder::CounterClockwise,
        }
    }

    /// Appends a vertex and returns its index.
    pub fn add_vertex(&mut self, vertex: V) -> (index: u16)
        requires
            old(self).vertices().len() <= u16::MAX,
        ensures
            index == old(self).vertices().len(),
            final(self).vertices() == old(self).vertices().push(vertex),
            final(self).indices() == old(self).indices(),
            final(self).winding_order() == old(self).winding_order(),
    {
        let index = self.vertices.len();
        self.vertices.push(vertex);
        index as u16
    }

    /// Appends a face.
    pub fn add_face<F: Face>(&mut self, face: F)
        ensures
            final(self).indices() == old(self).indices() + face.face_indices(),
            final(self).vertices() == old(self).vertices(),
            final(self).winding_order() == old(self).winding_order(),
    {
        face.add_indices(self);
    }

    /// Appends one index.
    fn push_index(&mut self, index: u16)
        ensures
            final(self).indices() == old(self).indices().push(index),
            final(self).vertices() == old(self).vertices(),
            final(self).winding_order() == old(self).winding_order(),
    {
        self.indices.push(index);
    }

    /// Finishes the mesh as a triangle list.
    pub fn build(self) -> (mesh: MeshData<V>)
        ensures
            mesh.primitive_topology == PrimitiveTopology::TriangleList,
            mesh.winding_order == self.winding_order(),
            !mesh.has_binormals,
            mesh.indices@ == self.indices(),
            mesh.vertices@ == self.vertices(),
    {
        MeshData {
            primitive_topology: PrimitiveTopology::TriangleList,
            winding_order: self.winding_order,
            has_binormals: false,
            indices: self.indices,
            vertices: self.vertices,
        }
    }
}

/// A polygon given by vertex indices that a [`MeshDataBuilder`] can add as
/// triangles.
pub trait Face {
    /// The indices the face adds, three per triangle.
    spec fn face_indices(&self) -> Seq<u16>;

    fn add_indices<V>(&self, builder: &mut MeshDataBuilder<V>)
        ensures
            final(builder).indices() == old(builder).indices() + self.face_indices(),
            final(builder).vertices() == old(builder).vertices(),
            final(builder).winding_order() == old(builder).winding_order(),
    ;
}

impl Face for [u16; 3] {
    /// The triangle itself.
    open spec fn face_indices(&self) -> Seq<u16> {
        seq![self[0], self[1], self[2]]
    }

    fn add_indices<V>(&self, builder: &mut MeshDataBuilder<V>) {
        builder.push_index(self[0]);
        builder.push_index(self[1]);
        builder.push_index(self[2]);
        assert(builder.indices() =~= old(builder).indices() + self.face_indices());
    }
}

impl Face for [u16; 4] {
    /// Two triangles, `0 1 2` and `0 2 3`.
    open spec fn face_indices(&self) -> Seq<u16> {
        seq![self[0], self[1], self[2], self[0], self[2], self[3]]
    }

    fn add_indices<V>(&self, builder: &mut MeshDataBuilder<V>) {
        builder.push_index(self[0]);
        builder.push_index(self[1]);
        builder.push_index(self[2]);
        builder.push_index(self[0]);
        builder.push_index(self[2]);
        builder.push_index(self[3]);
        assert(builder.indices() =~= old(builder).indices() + self.face_indices());
    }
}

} // verus!
