use vstd::prelude::*;

use super::super::{MeshData, PrimitiveTopology, WindingOrder};

verus! {

/// Builds a quad from its corners: bottom left, bottom right, top left and
/// top right. The mesh is marked counter-clockwise, but with the corners
/// placed as named its two triangles (`0 2 1` and `1 2 3`) run clockwise.
pub fn mesh_quad<V>(a: V, b: V, c: V, d: V) -> (mesh: MeshData<V>)
    ensures
        mesh.primitive_topology == PrimitiveTopology::TriangleList,
        mesh.winding_order == WindingOrder::CounterClockwise,
        !mesh.has_binormals,
        mesh.vertices@ == seq![a, b, c, d],
        mesh.indices@ == seq![0u16, 2, 1, 1, 2, 3],
{
    let indices: Vec<u16> = vec![0, 2, 1, 1, 2, 3];
    let mut vertices: Vec<V> = Vec::with_capacity(4);
    vertices.push(a);
    vertices.push(b);
    vertices.push(c);
    vertices.push(d);
    assert(indices@ =~= seq![0u16, 2, 1, 1, 2, 3]);
    assert(vertices@ =~= seq![a, b, c, d]);
    MeshData {
        primitive_topology: PrimitiveTopology::TriangleList,
        winding_order: WindingOrder::CounterClockwise,
        has_binormals: false,
        indices,
        vertices,
    }
}

} // verus!
