use bezier_patches::lines::LineGeometry;
use bezier_patches::mesh_registry::BezierMeshManager;

#[test]
fn line_segments_get_consecutive_indices() {
    let mut g: LineGeometry<[f32; 3], f32> = LineGeometry::new();
    g.add_segment([0.0, 0.0, 0.0], [1.0, 0.0, 0.0], [1.0, 1.0, 0.0], 2.0);
    g.add_segment([1.0, 0.0, 0.0], [1.0, 1.0, 0.0], [0.0, 1.0, 0.0], 0.5);
    assert_eq!(g.indices, vec![0, 1, 2, 3]);
    assert_eq!(g.positions.len(), 4);
    assert_eq!(g.colors.local_buffer[3], [0.0, 1.0, 0.0]);
    assert_eq!(g.widths.local_buffer, vec![2.0, 2.0, 0.5, 0.5]);
    assert_eq!(g.widths.label(), "width");
    assert_eq!(g.widths.descriptor.index, 2);
}

#[test]
fn mesh_manager_ignores_models_without_symbol() {
    let mut m: BezierMeshManager<u32> = BezierMeshManager::new();
    m.update_meshes(None, vec![1, 2]);
    assert!(!m.has_meshes('A'));
    m.update_meshes(Some('A'), vec![1, 2]);
    assert!(m.has_meshes('A'));
    assert_eq!(m.retrieve_meshes('A'), &vec![1, 2]);
    m.update_meshes(Some('A'), vec![3]);
    assert_eq!(m.retrieve_meshes('A'), &vec![3]);
}

#[test]
fn mesh_manager_rename_and_remove() {
    let mut m: BezierMeshManager<u32> = BezierMeshManager::new();
    m.update_meshes(Some('A'), vec![7, 8]);
    m.rename_meshes('A', 'B');
    assert!(!m.has_meshes('A'));
    assert_eq!(m.retrieve_meshes('B'), &vec![7, 8]);
    m.rename_meshes('Z', 'Y');
    assert!(!m.has_meshes('Y'));
    m.remove_meshes('B');
    assert!(!m.has_meshes('B'));
    m.remove_meshes('B');
    assert!(!m.has_meshes('B'));
}
