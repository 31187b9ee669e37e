use fluid_lab::ghost::{face_cells, is_inlet_ghost, resolve_axis, sample_index};
use fluid_lab::layout::CellLayout;
use fluid_lab::physics::Boundary;

#[test]
fn index_places_x_fastest_then_y_then_z() {
    let l = CellLayout::new([4, 3, 2]);
    assert_eq!(l.len(), 24);
    assert_eq!(l.index([0, 0, 0]), 0);
    assert_eq!(l.index([1, 0, 0]), 1);
    assert_eq!(l.index([0, 1, 0]), 4);
    assert_eq!(l.index([0, 0, 1]), 12);
    assert_eq!(l.index([3, 2, 1]), 23);
}

#[test]
fn coords_and_index_are_inverse() {
    let l = CellLayout::new([5, 3, 4]);
    for i in 0..l.len() {
        let c = l.coords(i);
        assert!(c[0] < 5 && c[1] < 3 && c[2] < 4);
        assert_eq!(l.index(c), i);
    }
    assert_eq!(l.coords(17), [2, 0, 1]);
}

#[test]
fn periodic_ghosts_wrap_and_others_clamp() {
    assert_eq!(resolve_axis(true, -1, 6), 5);
    assert_eq!(resolve_axis(true, 6, 6), 0);
    assert_eq!(resolve_axis(true, -7, 6), 5);
    assert_eq!(resolve_axis(true, 13, 6), 1);
    assert_eq!(resolve_axis(false, -1, 6), 0);
    assert_eq!(resolve_axis(false, 6, 6), 5);
    assert_eq!(resolve_axis(false, 3, 6), 3);
}

#[test]
fn sample_index_follows_boundary_kind() {
    let l = CellLayout::new([4, 3, 2]);
    assert_eq!(sample_index(&l, Boundary::Periodic, [-1, 0, 0]), l.index([3, 0, 0]));
    assert_eq!(sample_index(&l, Boundary::Outflow, [-1, 0, 0]), l.index([0, 0, 0]));
    assert_eq!(sample_index(&l, Boundary::Jet, [4, 3, 2]), l.index([3, 2, 1]));
    assert_eq!(sample_index(&l, Boundary::Periodic, [4, 3, 2]), l.index([0, 0, 0]));
    assert_eq!(sample_index(&l, Boundary::Outflow, [2, 1, 1]), l.index([2, 1, 1]));
}

#[test]
fn inlet_ghosts_lie_before_the_jet_face() {
    assert!(is_inlet_ghost(Boundary::Jet, [-1, 2, 2]));
    assert!(!is_inlet_ghost(Boundary::Jet, [0, 2, 2]));
    assert!(!is_inlet_ghost(Boundary::Outflow, [-1, 2, 2]));
}

#[test]
fn faces_join_neighbouring_cells() {
    let l = CellLayout::new([4, 3, 2]);
    let inner = face_cells(&l, false, 0, [2, 1, 1]);
    assert!(inner.left_inside && inner.right_inside);
    assert_eq!(inner.left, Some(l.index([1, 1, 1])));
    assert_eq!(inner.right, Some(l.index([2, 1, 1])));
    let low = face_cells(&l, false, 1, [2, 0, 1]);
    assert!(!low.left_inside && low.right_inside);
    assert_eq!(low.left, None);
    let high = face_cells(&l, false, 2, [2, 1, 2]);
    assert!(high.left_inside && !high.right_inside);
    assert_eq!(high.right, None);
}

#[test]
fn periodic_seam_faces_join_the_same_cells() {
    let l = CellLayout::new([4, 3, 2]);
    let first = face_cells(&l, true, 0, [0, 2, 1]);
    let last = face_cells(&l, true, 0, [4, 2, 1]);
    assert_eq!(first.left, Some(l.index([3, 2, 1])));
    assert_eq!(first.right, Some(l.index([0, 2, 1])));
    assert_eq!(first.left, last.left);
    assert_eq!(first.right, last.right);
    assert!(!first.left_inside && first.right_inside);
    assert!(last.left_inside && !last.right_inside);
}

#[test]
fn each_cell_sits_between_its_two_faces() {
    let l = CellLayout::new([3, 2, 2]);
    for axis in 0..3 {
        for i in 0..l.len() {
            let c = l.coords(i);
            let below = face_cells(&l, false, axis, c);
            assert!(below.right_inside);
            assert_eq!(below.right, Some(i));
            let mut above = c;
            above[axis] += 1;
            let above = face_cells(&l, false, axis, above);
            assert!(above.left_inside);
            assert_eq!(above.left, Some(i));
        }
    }
}

#[test]
fn interior_cells_stand_for_themselves() {
    let l = CellLayout::new([3, 2, 2]);
    for i in 0..l.len() {
        let c = l.coords(i);
        let s = [c[0] as isize, c[1] as isize, c[2] as isize];
        for b in [Boundary::Periodic, Boundary::Outflow, Boundary::Jet] {
            assert_eq!(sample_index(&l, b, s), i);
        }
    }
}
