use fluid_lab::mesh::{cylinder_indices, quad_indices, sphere_indices};

#[test]
fn quads_are_two_triangles() {
    assert_eq!(quad_indices(10), [10, 11, 12, 10, 12, 13]);
}

#[test]
fn sphere_cells_follow_rows() {
    let v = sphere_indices(4, 3, 2);
    assert_eq!(v.len(), 36);
    assert_eq!(&v[0..6], &[4, 8, 5, 8, 9, 5]);
    assert_eq!(&v[18..24], &[8, 12, 9, 12, 13, 9]);
    let vertices = 4 + 3 * 4;
    assert!(v.iter().all(|&i| i >= 4 && i < vertices));
    let mut used = v.clone();
    used.sort();
    used.dedup();
    assert_eq!(used.len(), 12);
}

#[test]
fn every_sphere_vertex_index_is_valid() {
    let (segments, rings) = (24u32, 16u32);
    let v = sphere_indices(100, segments, rings);
    assert_eq!(v.len() as u32, 6 * segments * rings);
    assert!(v.iter().all(|&i| i >= 100 && i < 100 + (segments + 1) * (rings + 1)));
}

#[test]
fn cylinder_walls_alternate_bottom_and_top() {
    let v = cylinder_indices(2, 3);
    assert_eq!(v, vec![2, 3, 4, 3, 5, 4, 4, 5, 6, 5, 7, 6, 6, 7, 8, 7, 9, 8]);
    assert!(cylinder_indices(0, 0).is_empty());
}
