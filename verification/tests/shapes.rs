use kardashev_ui::graphics::mesh::sector_sphere;
use kardashev_ui::graphics::mesh::shape::builder::{ShapeBuilder, Triangulate};
use kardashev_ui::graphics::mesh::shape::cuboid::{cuboid_corner, cuboid_face, cuboid_tex_corner, mesh_cuboid, CuboidVertex};
use kardashev_ui::graphics::mesh::shape::flat::{mesh_circle_polygon, mesh_circle_segments, mesh_rectangle, CircleVertex};
use kardashev_ui::graphics::mesh::shape::quad::mesh_quad;
use kardashev_ui::graphics::mesh::shape::sphere::{mesh_sphere_uv, SphereMeshType, SphereVertex};
use kardashev_ui::graphics::mesh::shape::MeshDataBuilder;
use kardashev_ui::graphics::mesh::{PrimitiveTopology, WindingOrder};

fn triangulate(n: usize) -> Vec<[usize; 3]> {
    let mut triangles = Triangulate::new(n);
    let mut out = Vec::new();
    while let Some(t) = triangles.next() {
        out.push(t);
    }
    out
}

#[test]
fn it_triangulates_a_triangle() {
    assert_eq!(triangulate(3), vec![[0, 1, 2]])
}

#[test]
fn it_triangulates_a_pentagon() {
    assert_eq!(triangulate(5), vec![[0, 1, 4], [4, 1, 3], [1, 2, 3],])
}

#[test]
fn it_triangulates_a_hexagon() {
    assert_eq!(
        triangulate(6),
        vec![[0, 1, 5], [5, 1, 4], [1, 2, 4], [4, 2, 3],]
    )
}

#[test]
fn triangulate_a_quad_and_a_heptagon() {
    assert_eq!(triangulate(4), vec![[0, 1, 3], [3, 1, 2]]);
    assert_eq!(
        triangulate(7),
        vec![[0, 1, 6], [6, 1, 5], [1, 2, 5], [5, 2, 4], [2, 3, 4]]
    );
}

#[test]
fn triangulate_yields_none_once_used_up() {
    let mut t = Triangulate::new(3);
    assert_eq!(t.next(), Some([0, 1, 2]));
    assert_eq!(t.next(), None);
    assert_eq!(t.next(), None);
}

#[test]
fn triangulate_counts_the_triangles_left() {
    for n in 3..40 {
        let mut t = Triangulate::new(n);
        assert_eq!(t.len(), n - 2);
        assert_eq!(t.size_hint(), (n - 2, Some(n - 2)));
        t.next();
        assert_eq!(t.len(), n - 3);
        assert_eq!(triangulate(n).len(), n - 2);
    }
}

#[test]
fn triangles_use_every_vertex_and_share_edges() {
    for n in 3..30 {
        let tris = triangulate(n);
        let mut seen = vec![false; n];
        for t in &tris {
            assert!(t[0] != t[1] && t[1] != t[2] && t[0] != t[2]);
            for v in t {
                assert!(*v < n);
                seen[*v] = true;
            }
        }
        assert!(seen.iter().all(|s| *s));
        for w in tris.windows(2) {
            let shared = w[0].iter().filter(|v| w[1].contains(v)).count();
            assert_eq!(shared, 2);
        }
    }
}

#[test]
fn shape_builder_adds_faces_through_the_triangulation() {
    let mut builder: ShapeBuilder<char> = ShapeBuilder::default();
    assert_eq!(builder.add_vertex('a'), 0);
    assert_eq!(builder.add_vertex('b'), 1);
    assert_eq!(builder.add_vertex('c'), 2);
    assert_eq!(builder.add_vertex('d'), 3);
    assert_eq!(builder.add_vertex('e'), 4);
    builder.add_face(&[10, 11, 12, 13, 14]);
    builder.add_tri([4, 3, 2]);
    let mesh = builder.build();
    assert_eq!(mesh.indices, vec![10, 11, 14, 14, 11, 13, 11, 12, 13, 4, 3, 2]);
    assert_eq!(mesh.vertices, vec!['a', 'b', 'c', 'd', 'e']);
    assert_eq!(mesh.primitive_topology, PrimitiveTopology::TriangleList);
    assert_eq!(mesh.winding_order, WindingOrder::CounterClockwise);
    assert!(!mesh.has_binormals);
}

#[test]
fn mesh_data_builder_splits_quads() {
    let mut builder: MeshDataBuilder<u8> = MeshDataBuilder::with_capacity(4, 6);
    for v in 0..4u8 {
        assert_eq!(builder.add_vertex(v), v as u16);
    }
    builder.add_face([0u16, 1, 2]);
    builder.add_face([5u16, 6, 7, 8]);
    let mesh = builder.build();
    assert_eq!(mesh.indices, vec![0, 1, 2, 5, 6, 7, 5, 7, 8]);
    assert_eq!(mesh.vertices, vec![0, 1, 2, 3]);
    let empty: MeshDataBuilder<u8> = MeshDataBuilder::default();
    assert!(empty.build().indices.is_empty());
}

#[test]
fn rectangle_and_quad_indices() {
    let rect = mesh_rectangle(1, 2, 3, 4);
    assert_eq!(rect.indices, vec![0, 1, 3, 3, 1, 2]);
    assert_eq!(rect.vertices, vec![1, 2, 3, 4]);
    let quad = mesh_quad('a', 'b', 'c', 'd');
    assert_eq!(quad.indices, vec![0, 2, 1, 1, 2, 3]);
    assert_eq!(quad.vertices, vec!['a', 'b', 'c', 'd']);
    assert_eq!(quad.winding_order, WindingOrder::CounterClockwise);
}

#[test]
fn circle_of_segments_is_a_fan() {
    let mesh = mesh_circle_segments(4, |v| v);
    assert_eq!(
        mesh.vertices,
        vec![
            CircleVertex::Center,
            CircleVertex::Rim { index: 0, count: 4 },
            CircleVertex::Rim { index: 1, count: 4 },
            CircleVertex::Rim { index: 2, count: 4 },
            CircleVertex::Rim { index: 3, count: 4 },
        ]
    );
    assert_eq!(mesh.indices, vec![0, 1, 2, 0, 2, 3, 0, 3, 4]);
}

#[test]
fn circle_as_polygon_is_a_strip() {
    let mesh = mesh_circle_polygon(5, |v| v);
    assert_eq!(mesh.vertices.len(), 5);
    assert_eq!(mesh.vertices[3], CircleVertex::Rim { index: 3, count: 5 });
    assert_eq!(mesh.indices, vec![0, 1, 4, 4, 1, 3, 1, 2, 3]);
}

#[test]
fn cuboid_has_two_triangles_per_face() {
    let mesh = mesh_cuboid(|v: CuboidVertex| v);
    assert_eq!(mesh.vertices.len(), 24);
    assert_eq!(mesh.vertices[7], CuboidVertex { corner: 3, face: 1, tex_corner: 1 });
    assert_eq!(mesh.vertices[0], CuboidVertex { corner: 0, face: 0, tex_corner: 3 });
    assert_eq!(mesh.vertices[22], CuboidVertex { corner: 5, face: 5, tex_corner: 0 });
    assert_eq!(
        mesh.indices,
        vec![
            3, 1, 0, 3, 2, 1, 7, 5, 4, 7, 6, 5, 11, 9, 8, 11, 10, 9, 15, 13, 12, 15, 14, 13, 19,
            17, 16, 19, 18, 17, 23, 21, 20, 23, 22, 21,
        ]
    );
    for f in 0..6u16 {
        for k in 0..6 {
            let i = mesh.indices[(f as usize) * 6 + k];
            assert!(4 * f <= i && i < 4 * f + 4);
        }
    }
}

#[test]
fn uv_sphere_with_two_stacks_has_only_caps() {
    let mesh = mesh_sphere_uv(3, 2, |v| v);
    assert_eq!(
        mesh.vertices,
        vec![
            SphereVertex::Top,
            SphereVertex::Ring { stack: 0, slice: 0 },
            SphereVertex::Ring { stack: 0, slice: 1 },
            SphereVertex::Ring { stack: 0, slice: 2 },
            SphereVertex::Ring { stack: 0, slice: 3 },
            SphereVertex::Bottom,
        ]
    );
    assert_eq!(
        mesh.indices,
        vec![0, 1, 2, 1, 2, 5, 0, 2, 3, 2, 3, 5, 0, 3, 4, 3, 4, 5]
    );
}

#[test]
fn uv_sphere_bands_join_rings() {
    let mesh = mesh_sphere_uv(3, 3, |v| v);
    assert_eq!(mesh.vertices.len(), 2 + 2 * 4);
    assert_eq!(mesh.vertices[9], SphereVertex::Bottom);
    assert_eq!(mesh.vertices[5], SphereVertex::Ring { stack: 1, slice: 0 });
    assert_eq!(mesh.indices.len(), 6 * 3 * 2);
    assert_eq!(&mesh.indices[0..6], &[0, 1, 2, 5, 6, 9]);
    assert_eq!(&mesh.indices[18..24], &[1, 5, 6, 1, 6, 2]);
    assert!(mesh.indices.iter().all(|i| (*i as usize) < mesh.vertices.len()));
}

#[test]
fn uv_sphere_defaults() {
    assert_eq!(
        SphereMeshType::default(),
        SphereMeshType::Uv { sectors: 32, stacks: 18 }
    );
    assert_eq!(
        sector_sphere::SphereMeshType::default(),
        sector_sphere::SphereMeshType::Uv { sectors: 32, stacks: 18 }
    );
}

#[test]
fn sector_sphere_grid_and_triangles() {
    let mesh = sector_sphere::mesh_sphere_uv(2, 2, |i, j| (i, j));
    assert_eq!(mesh.vertices.len(), 9);
    assert_eq!(mesh.vertices[4], (1, 1));
    assert_eq!(mesh.vertices[8], (2, 2));
    assert_eq!(mesh.indices, vec![1, 3, 4, 2, 4, 5, 3, 6, 4, 4, 7, 5]);
}

#[test]
fn sector_sphere_index_count_and_bounds() {
    let mesh = sector_sphere::mesh_sphere_uv(32, 18, |i, j| (i, j));
    assert_eq!(mesh.vertices.len(), 19 * 33);
    assert_eq!(mesh.indices.len(), 6 * 32 * 17);
    assert!(mesh.indices.iter().all(|i| (*i as usize) < mesh.vertices.len()));
    let one_stack = sector_sphere::mesh_sphere_uv(5, 1, |i, j| (i, j));
    assert!(one_stack.indices.is_empty());
    assert_eq!(one_stack.vertices.len(), 12);
}

#[test]
fn cuboid_vertex_places() {
    let corners: Vec<usize> = (0..24).map(cuboid_corner).collect();
    assert_eq!(
        corners,
        vec![0, 1, 2, 3, 7, 4, 0, 3, 4, 5, 1, 0, 6, 7, 3, 2, 5, 6, 2, 1, 7, 6, 5, 4]
    );
    let faces: Vec<usize> = (0..24).map(cuboid_face).collect();
    assert_eq!(faces[..8], [0, 0, 0, 0, 1, 1, 1, 1]);
    assert_eq!(cuboid_face(23), 5);
    let tex: Vec<usize> = (0..8).map(cuboid_tex_corner).collect();
    assert_eq!(tex, vec![3, 2, 0, 1, 3, 2, 0, 1]);
}
