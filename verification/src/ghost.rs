use vstd::prelude::*;
use vstd::arithmetic::div_mod::{lemma_fundamental_div_mod, lemma_fundamental_div_mod_converse};
use crate::layout::{CellLayout, Coords, coords_of, lemma_index_in_range};
use crate::physics::Boundary;

verus! {

/// Component `axis` of a coordinate triple.
pub open spec fn component(c: Coords, axis: int) -> int {
    if axis == 0 { c.0 } else if axis == 1 { c.1 } else { c.2 }
}

/// A coordinate triple with component `axis` replaced by `v`.
pub open spec fn with_component(c: Coords, axis: int, v: int) -> Coords {
    if axis == 0 { (v, c.1, c.2) } else if axis == 1 { (c.0, v, c.2) } else { (c.0, c.1, v) }
}

/// Coordinates of a signed exec cell address.
pub open spec fn signed_coords_of(c: [isize; 3]) -> Coords {
    (c[0] as int, c[1] as int, c[2] as int)
}

/// A ghost coordinate along one axis of `n` cells, mapped into the block:
/// periodic boundaries wrap around, the others repeat the edge cell.
pub open spec fn resolve(periodic: bool, q: int, n: int) -> int {
    if periodic {
        q % n
    } else if q < 0 {
        0
    } else if q > n - 1 {
        n - 1
    } else {
        q
    }
}

/// A ghost cell mapped into the block, axis by axis.
pub open spec fn resolve_cell(l: CellLayout, periodic: bool, c: Coords) -> Coords {
    (resolve(periodic, c.0, l.n[0] as int), resolve(periodic, c.1, l.n[1] as int),
        resolve(periodic, c.2, l.n[2] as int))
}

/// The cells of a block address fit in `isize` once offset by one.
pub open spec fn signed_fit(l: CellLayout) -> bool {
    &&& l.n[0] < isize::MAX
    &&& l.n[1] < isize::MAX
    &&& l.n[2] < isize::MAX
}

/// Maps one ghost coordinate into `0..n`.
pub fn resolve_axis(periodic: bool, q: isize, n: usize) -> (r: usize)
    requires
        0 < n < isize::MAX,
    ensures
        r == resolve(periodic, q as int, n as int),
        r < n,
{
    if periodic {
        if q >= 0 {
            (q as usize) % n
        } else {
            let m: usize = (-(q + 1)) as usize;
            let rem: usize = m % n;
            proof {
                let k = (m as int) / (n as int);
                lemma_fundamental_div_mod(m as int, n as int);
                let qq = -(k + 1);
                let rr = n - 1 - rem;
                assert(q == qq * n + rr) by (nonlinear_arith)
                    requires
                        m == n * k + rem,
                        q == -(m as int) - 1,
                        qq == -(k + 1),
                        rr == n - 1 - rem;
                lemma_fundamental_div_mod_converse(q as int, n as int, qq, rr);
            }
            n - 1 - rem
        }
    } else if q < 0 {
        0
    } else if q as usize > n - 1 {
        n - 1
    } else {
        q as usize
    }
}

/// Whether a cell address lies before the inlet face of a jet box, where
/// the nozzle may supply the state instead of the edge cell.
pub fn is_inlet_ghost(boundary: Boundary, c: [isize; 3]) -> (r: bool)
    ensures
        r == (boundary == Boundary::Jet && c[0] < 0),
{
    boundary == Boundary::Jet && c[0] < 0
}

/// Storage position of the cell that stands for a (possibly ghost) cell
/// address: wrapped on periodic boxes, clamped to the edge otherwise.
pub fn sample_index(l: &CellLayout, boundary: Boundary, c: [isize; 3]) -> (r: usize)
    requires
        l.wf(),
        signed_fit(*l),
    ensures
        l.in_range(resolve_cell(*l, boundary == Boundary::Periodic, signed_coords_of(c))),
        r == l.spec_index(resolve_cell(*l, boundary == Boundary::Periodic, signed_coords_of(c))),
        r < l.spec_len(),
{
    let periodic = boundary == Boundary::Periodic;
    let x = resolve_axis(periodic, c[0], l.n[0]);
    let y = resolve_axis(periodic, c[1], l.n[1]);
    let z = resolve_axis(periodic, c[2], l.n[2]);
    proof {
        lemma_index_in_range(*l, (x as int, y as int, z as int));
    }
    l.index([x, y, z])
}

/// The cells on either side of one face of the block, as the flux sweep
/// sees them.
#[derive(Clone, Copy, Debug)]
pub struct FaceCells {
    /// Storage position of the cell on the low side, if there is one.
    pub left: Option<usize>,
    /// Storage position of the cell on the high side, if there is one.
    pub right: Option<usize>,
    /// The low-side cell lies inside the block.
    pub left_inside: bool,
    /// The high-side cell lies inside the block.
    pub right_inside: bool,
}

/// A face address along `axis`: its `axis` component runs over `0..=n`,
/// the others over the cells.
pub open spec fn face_in_range(l: CellLayout, axis: int, f: Coords) -> bool {
    &&& 0 <= f.0 && 0 <= f.1 && 0 <= f.2
    &&& if axis == 0 { f.0 <= l.n[0] } else { f.0 < l.n[0] }
    &&& if axis == 1 { f.1 <= l.n[1] } else { f.1 < l.n[1] }
    &&& if axis == 2 { f.2 <= l.n[2] } else { f.2 < l.n[2] }
}

/// Number of cells along `axis`.
pub open spec fn extent(l: CellLayout, axis: int) -> int {
    if axis == 0 { l.n[0] as int } else if axis == 1 { l.n[1] as int } else { l.n[2] as int }
}

/// The cell below face `f`: the neighbour inside the block, its periodic
/// image on a periodic box, or none.
pub open spec fn face_left(l: CellLayout, periodic: bool, axis: int, f: Coords) -> Option<Coords> {
    if component(f, axis) >= 1 {
        Some(with_component(f, axis, component(f, axis) - 1))
    } else if periodic {
        Some(with_component(f, axis, extent(l, axis) - 1))
    } else {
        None
    }
}

/// The cell above face `f`: the neighbour inside the block, its periodic
/// image on a periodic box, or none.
pub open spec fn face_right(l: CellLayout, periodic: bool, axis: int, f: Coords) -> Option<Coords> {
    if component(f, axis) < extent(l, axis) {
        Some(f)
    } else if periodic {
        Some(with_component(f, axis, 0))
    } else {
        None
    }
}

/// Storage position of an optional cell.
pub open spec fn position_of(l: CellLayout, c: Option<Coords>) -> Option<usize> {
    match c {
        Some(c) => Some(l.spec_index(c) as usize),
        None => None,
    }
}

proof fn lemma_face_sides_in_range(l: CellLayout, periodic: bool, axis: int, f: Coords)
    requires
        l.wf(),
        0 <= axis < 3,
        face_in_range(l, axis, f),
    ensures
        face_left(l, periodic, axis, f) matches Some(c) ==> l.in_range(c),
        face_right(l, periodic, axis, f) matches Some(c) ==> l.in_range(c),
{
}

/// The cells on both sides of face `face` normal to `axis`.
pub fn face_cells(l: &CellLayout, periodic: bool, axis: usize, face: [usize; 3]) -> (r: FaceCells)
    requires
        l.wf(),
        axis < 3,
        face_in_range(*l, axis as int, coords_of(face)),
    ensures
        r.left_inside == (component(coords_of(face), axis as int) >= 1),
        r.right_inside == (component(coords_of(face), axis as int) < extent(*l, axis as int)),
        r.left == position_of(*l, face_left(*l, periodic, axis as int, coords_of(face))),
        r.right == position_of(*l, face_right(*l, periodic, axis as int, coords_of(face))),
{
    proof {
        lemma_face_sides_in_range(*l, periodic, axis as int, coords_of(face));
    }
    let k = face[axis];
    let n = l.n[axis];
    let left_inside = k >= 1;
    let right_inside = k < n;
    let left = if left_inside {
        let mut c = face;
        c[axis] = k - 1;
        proof {
            lemma_index_in_range(*l, coords_of(c));
            assert(coords_of(c) == with_component(coords_of(face), axis as int, k - 1));
        }
        Some(l.index(c))
    } else if periodic {
        let mut c = face;
        c[axis] = n - 1;
        proof {
            lemma_index_in_range(*l, coords_of(c));
            assert(coords_of(c) == with_component(coords_of(face), axis as int, n - 1));
        }
        Some(l.index(c))
    } else {
        None
    };
    let right = if right_inside {
        proof {
            lemma_index_in_range(*l, coords_of(face));
        }
        Some(l.index(face))
    } else if periodic {
        let mut c = face;
        c[axis] = 0;
        proof {
            lemma_index_in_range(*l, coords_of(c));
            assert(coords_of(c) == with_component(coords_of(face), axis as int, 0));
        }
        Some(l.index(c))
    } else {
        None
    };
    FaceCells { left, right, left_inside, right_inside }
}

/// Cells inside the block stand for themselves, whatever the boundary.
pub proof fn law_interior_cells_resolve_to_themselves(l: CellLayout, periodic: bool, c: Coords)
    requires
        l.wf(),
        l.in_range(c),
    ensures
        resolve_cell(l, periodic, c) == c,
{
    if periodic {
        vstd::arithmetic::div_mod::lemma_small_mod(c.0 as nat, l.n[0] as nat);
        vstd::arithmetic::div_mod::lemma_small_mod(c.1 as nat, l.n[1] as nat);
        vstd::arithmetic::div_mod::lemma_small_mod(c.2 as nat, l.n[2] as nat);
    }
}

/// On a periodic box a ghost cell one step outside stands for the cell on
/// the opposite side.
pub proof fn law_periodic_ghost_wraps(n: int)
    requires
        n > 0,
    ensures
        resolve(true, -1, n) == n - 1,
        resolve(true, n, n) == 0,
{
    lemma_fundamental_div_mod_converse(-1, n, -1, n - 1);
    lemma_fundamental_div_mod_converse(n, n, 1, 0);
}

/// On a periodic box every face has a cell on both sides, both in the block.
pub proof fn law_periodic_faces_are_closed(l: CellLayout, axis: int, f: Coords)
    requires
        l.wf(),
        0 <= axis < 3,
        face_in_range(l, axis, f),
    ensures
        face_left(l, true, axis, f) is Some,
        face_right(l, true, axis, f) is Some,
        l.in_range(face_left(l, true, axis, f)->0),
        l.in_range(face_right(l, true, axis, f)->0),
{
}

/// On a periodic box the first and the last face of a line of cells join the
/// same two cells, so the flux through the seam is computed once for both.
pub proof fn law_periodic_seam_faces_agree(l: CellLayout, axis: int, f: Coords)
    requires
        l.wf(),
        0 <= axis < 3,
        face_in_range(l, axis, f),
        component(f, axis) == 0,
    ensures
        face_left(l, true, axis, f) == face_left(l, true, axis,
            with_component(f, axis, extent(l, axis))),
        face_right(l, true, axis, f) == face_right(l, true, axis,
            with_component(f, axis, extent(l, axis))),
{
}

/// Each cell of the block is the high side of the face at its own address
/// and the low side of the next face along the axis: every face flux is
/// taken from one cell and given to its neighbour.
pub proof fn law_each_cell_between_two_faces(l: CellLayout, periodic: bool, axis: int, c: Coords)
    requires
        l.wf(),
        0 <= axis < 3,
        l.in_range(c),
    ensures
        face_in_range(l, axis, c),
        face_right(l, periodic, axis, c) == Some(c),
        face_in_range(l, axis, with_component(c, axis, component(c, axis) + 1)),
        face_left(l, periodic, axis, with_component(c, axis, component(c, axis) + 1)) == Some(c),
{
}

} // verus!
