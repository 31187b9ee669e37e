use fluid_lab::spatial::CellGrid;

fn brute_force(cands: &[Option<[usize; 3]>], dim: [usize; 3], center: [isize; 3]) -> Vec<usize> {
    let mut v = Vec::new();
    for (j, c) in cands.iter().enumerate() {
        if let Some(c) = c {
            let inside = c[0] < dim[0] && c[1] < dim[1] && c[2] < dim[2];
            let near = (0..3).all(|a| (c[a] as isize - center[a]).abs() <= 1);
            if inside && near {
                v.push(j);
            }
        }
    }
    v
}

#[test]
fn a_new_grid_has_empty_buckets() {
    let g = CellGrid::new([3, 3, 3], 5);
    assert_eq!(g.dim(), [3, 3, 3]);
    assert!(g.neighbours([1, 1, 1]).is_empty());
}

#[test]
fn cell_index_matches_storage_order() {
    let g = CellGrid::new([4, 5, 6], 0);
    assert_eq!(g.cell_index([1, 2, 3]), 1 + 2 * 4 + 3 * 20);
    assert_eq!(g.cell_of(Some([3, 4, 5])), Some(3 + 16 + 100));
    assert_eq!(g.cell_of(Some([4, 0, 0])), None);
    assert_eq!(g.cell_of(None), None);
}

#[test]
fn buckets_list_newest_particles_first() {
    let mut g = CellGrid::new([2, 2, 2], 0);
    let cands = vec![Some([0, 0, 0]), Some([1, 0, 0]), Some([0, 0, 0]), None, Some([0, 0, 0])];
    g.build(&cands);
    // Only the cell itself lies in the grid around a far corner below the origin.
    assert_eq!(g.neighbours([-1, -1, -1]), vec![4, 2, 0]);
}

#[test]
fn neighbour_search_finds_exactly_the_adjacent_particles() {
    let dim = [5, 4, 3];
    let mut cands = Vec::new();
    for k in 0..90usize {
        let c = [(k * 7) % 6, (k * 5) % 5, (k * 3) % 4];
        cands.push(if k % 11 == 0 { None } else { Some(c) });
    }
    let mut g = CellGrid::new(dim, 3);
    g.build(&cands);
    for cx in -2..7isize {
        for cy in -2..6isize {
            for cz in -2..5isize {
                let mut found = g.neighbours([cx, cy, cz]);
                found.sort();
                assert_eq!(found, brute_force(&cands, dim, [cx, cy, cz]));
            }
        }
    }
}

#[test]
fn rebuilding_forgets_the_previous_assignment() {
    let mut g = CellGrid::new([3, 1, 1], 2);
    g.build(&vec![Some([0, 0, 0]), Some([2, 0, 0])]);
    g.build(&vec![Some([2, 0, 0])]);
    assert_eq!(g.neighbours([0, 0, 0]), Vec::<usize>::new());
    assert_eq!(g.neighbours([2, 0, 0]), vec![0]);
}
