use bezier_patches::basic::{BasicGeometry, Vertex};
use bezier_patches::attributes::{
    retrieve_vertex_count, AttributeArray, AttributeLookupError, AttributeRegistry, ElementKind,
};
use bezier_patches::grid::{plane_indices, sample_grid, sphere_indices};
use bezier_patches::topology::{calculate_faces, calculate_indexed_faces, Face, PrimitiveType};

fn face(a: u32, b: u32, c: u32) -> Face {
    Face { a, b, c }
}

#[test]
fn fan_faces_share_first_vertex() {
    let faces = calculate_faces(PrimitiveType::TriangleFan, 5);
    assert_eq!(faces, vec![face(0, 1, 2), face(0, 2, 3), face(0, 3, 4)]);
}

#[test]
fn fan_of_n_vertices_has_n_minus_two_faces() {
    for n in 3..20usize {
        assert_eq!(calculate_faces(PrimitiveType::TriangleFan, n).len(), n - 2);
    }
}

#[test]
fn list_of_3n_vertices_has_n_faces() {
    for n in 1..20usize {
        assert_eq!(calculate_faces(PrimitiveType::Triangles, 3 * n).len(), n);
    }
    let faces = calculate_faces(PrimitiveType::Triangles, 6);
    assert_eq!(faces, vec![face(0, 1, 2), face(3, 4, 5)]);
}

#[test]
fn strip_faces_slide_by_one() {
    let faces = calculate_faces(PrimitiveType::TriangleStrip, 4);
    assert_eq!(faces, vec![face(0, 1, 2), face(1, 2, 3)]);
}

#[test]
fn indexed_faces_read_the_index_stream() {
    let indices = [7u32, 3, 9, 4, 1, 8];
    assert_eq!(
        calculate_indexed_faces(PrimitiveType::Triangles, &indices),
        vec![face(7, 3, 9), face(4, 1, 8)]
    );
    assert_eq!(
        calculate_indexed_faces(PrimitiveType::TriangleStrip, &indices[..4]),
        vec![face(7, 3, 9), face(3, 9, 4)]
    );
    assert_eq!(
        calculate_indexed_faces(PrimitiveType::TriangleFan, &indices[..4]),
        vec![face(7, 3, 9), face(7, 9, 4)]
    );
    assert!(calculate_indexed_faces(PrimitiveType::TriangleFan, &indices[..2]).is_empty());
}

#[test]
fn plane_single_row() {
    assert_eq!(plane_indices(1, 1), vec![0, 2, 1, 3]);
    assert_eq!(plane_indices(1, 2), vec![0, 3, 1, 4, 2, 5]);
}

#[test]
fn plane_rows_are_stitched_with_degenerate_triangles() {
    assert_eq!(plane_indices(2, 1), vec![0, 2, 1, 3, 3, 2, 2, 4, 3, 5]);
}

#[test]
fn plane_index_count_and_range() {
    let (rows, cols) = (30u32, 30u32);
    let indices = plane_indices(rows, cols);
    let expected = rows * (2 * (cols + 1) + 2) - 2;
    assert_eq!(indices.len() as u32, expected);
    let vertex_count = (rows + 1) * (cols + 1);
    assert!(indices.iter().all(|&i| i < vertex_count));
    assert_eq!(*indices.iter().max().unwrap(), vertex_count - 1);
}

#[test]
fn sphere_single_band() {
    assert_eq!(sphere_indices(1, 2), vec![0, 2, 1, 1, 2, 3]);
}

#[test]
fn sphere_two_bands() {
    assert_eq!(
        sphere_indices(2, 3),
        vec![
            0, 3, 1, 1, 3, 4, 1, 4, 2, 2, 4, 5, 3, 6, 4, 4, 6, 7, 4, 7, 5, 5, 7, 8
        ]
    );
    let indices = sphere_indices(40, 40);
    assert_eq!(indices.len(), 6 * 40 * 39);
    assert!(indices.iter().all(|&i| i < 41 * 41));
}

#[test]
fn grid_is_sampled_row_major() {
    let v = sample_grid(1, 2, |x, y| (x, y));
    assert_eq!(v, vec![(0, 0), (1, 0), (2, 0), (0, 1), (1, 1), (2, 1)]);
}

#[test]
fn tessellated_positions_are_the_samples_at_their_grid_points() {
    let (rows, cols) = (4u32, 5u32);
    let surface = |x: u32, y: u32| -> [f32; 3] {
        let u = x as f32 / cols as f32;
        let v = y as f32 / rows as f32;
        [u, v, u * u * v]
    };
    let positions = sample_grid(rows, cols, surface);
    assert_eq!(positions.len() as u32, (rows + 1) * (cols + 1));
    for y in 0..=rows {
        for x in 0..=cols {
            assert_eq!(positions[(y * (cols + 1) + x) as usize], surface(x, y));
        }
    }
}

#[test]
fn vertex_count_needs_agreeing_channels() {
    assert_eq!(retrieve_vertex_count(&[3, 3, 3]), Some(3));
    assert_eq!(retrieve_vertex_count(&[0]), Some(0));
    assert_eq!(retrieve_vertex_count(&[3, 4, 3]), None);
    assert_eq!(retrieve_vertex_count(&[]), None);
}

#[test]
fn attribute_array_starts_empty() {
    let a: AttributeArray<[f32; 3]> = AttributeArray::with_capacity(2, "normal", 16);
    assert_eq!(a.len(), 0);
    assert_eq!(a.label(), "normal");
    assert_eq!(a.descriptor.index, 2);
}

#[test]
fn registry_lookup_checks_label_and_type() {
    let mut r = AttributeRegistry::new();
    assert_eq!(r.next_index(), 3);
    r.add_attr("alpha", ElementKind::Scalar);
    r.add_attr("offset", ElementKind::Vector3);
    assert_eq!(r.len(), 2);
    assert_eq!(r.next_index(), 5);
    assert_eq!(r.attr_by_label("alpha", ElementKind::Scalar), Ok(0));
    assert_eq!(r.attr_by_label("offset", ElementKind::Vector3), Ok(1));
    assert_eq!(
        r.attr_by_label("alpha", ElementKind::Vector3),
        Err(AttributeLookupError::TypeMismatch)
    );
    assert_eq!(
        r.attr_by_label("width", ElementKind::Scalar),
        Err(AttributeLookupError::NotFound)
    );
}

#[test]
fn registry_lookup_takes_first_of_equal_labels() {
    let mut r = AttributeRegistry::new();
    r.add_attr("w", ElementKind::Vector3);
    r.add_attr("w", ElementKind::Scalar);
    assert_eq!(
        r.attr_by_label("w", ElementKind::Scalar),
        Err(AttributeLookupError::TypeMismatch)
    );
    assert_eq!(r.attr_by_label("w", ElementKind::Vector3), Ok(0));
}

#[test]
fn basic_geometry_splits_vertices_into_channels() {
    let vs = [
        Vertex::new_with_normal([0.5f32, -0.5, 0.0], [1.0, 0.0, 0.0], [0.0, 0.0, 1.0]),
        Vertex::new_with_normal([-0.5, -0.5, 0.0], [0.0, 1.0, 0.0], [0.0, 0.0, 1.0]),
        Vertex::new_with_normal([0.0, 0.5, 0.0], [0.0, 0.0, 1.0], [0.0, 0.0, 1.0]),
    ];
    let mut g = BasicGeometry::from_vertices(&vs);
    assert_eq!(g.vertex_count(), Some(3));
    assert_eq!(g.positions.local_buffer[1], [-0.5, -0.5, 0.0]);
    assert_eq!(g.colors.local_buffer[2], [0.0, 0.0, 1.0]);
    assert_eq!(g.normals.label(), "normal");
    g.normals.local_buffer.pop();
    assert_eq!(g.vertex_count(), None);
    let empty: BasicGeometry<[f32; 3]> = BasicGeometry::new();
    assert_eq!(empty.vertex_count(), Some(0));
}
