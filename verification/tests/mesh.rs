use pathtracer::mesh::MeshTopology;

#[test]
fn quad_splits_into_two_triangles() {
    let topology = MeshTopology::new(vec![0, 2, 1, 2, 3, 1], 4).unwrap();
    assert_eq!(topology.n_triangles(), 2);
    assert_eq!(
        (topology.corner(0, 0), topology.corner(0, 1), topology.corner(0, 2)),
        (0, 2, 1)
    );
    assert_eq!(
        (topology.corner(1, 0), topology.corner(1, 1), topology.corner(1, 2)),
        (2, 3, 1)
    );
}

#[test]
fn out_of_range_index_is_rejected() {
    assert!(MeshTopology::new(vec![0, 1, 4], 4).is_none());
    assert!(MeshTopology::new(vec![0, 1, 2], 3).is_some());
}

#[test]
fn trailing_partial_triple_is_ignored() {
    let topology = MeshTopology::new(vec![0, 1, 2, 0, 1], 3).unwrap();
    assert_eq!(topology.n_triangles(), 1);
}

#[test]
fn empty_mesh_has_no_triangles() {
    let topology = MeshTopology::new(Vec::new(), 0).unwrap();
    assert_eq!(topology.n_triangles(), 0);
}
