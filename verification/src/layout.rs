use vstd::prelude::*;
use vstd::arithmetic::div_mod::{
    lemma_fundamental_div_mod,
    lemma_fundamental_div_mod_converse,
    lemma_div_denominator,
};
use vstd::arithmetic::mul::{lemma_mul_strictly_positive, lemma_mul_is_associative};

verus! {

/// Cell coordinates `(x, y, z)` as mathematical integers.
pub type Coords = (int, int, int);

/// Coordinates of an exec cell address.
pub open spec fn coords_of(c: [usize; 3]) -> Coords {
    (c[0] as int, c[1] as int, c[2] as int)
}

/// The storage layout of a three-dimensional block of cells:
/// `x` varies fastest, then `y`, then `z`.
#[derive(Clone, Copy, Debug)]
pub struct CellLayout {
    pub n: [usize; 3],
}

impl CellLayout {
    /// Every axis holds at least one cell and the cell count fits in `usize`.
    pub open spec fn wf(self) -> bool {
        &&& self.n[0] > 0
        &&& self.n[1] > 0
        &&& self.n[2] > 0
        &&& self.n[0] * self.n[1] * self.n[2] <= usize::MAX
    }

    /// Number of cells.
    pub open spec fn spec_len(self) -> int {
        self.n[0] * self.n[1] * self.n[2]
    }

    /// Whether integer coordinates name a cell of the block.
    pub open spec fn in_range(self, c: Coords) -> bool {
        &&& 0 <= c.0 < self.n[0]
        &&& 0 <= c.1 < self.n[1]
        &&& 0 <= c.2 < self.n[2]
    }

    /// Storage position of a cell.
    pub open spec fn spec_index(self, c: Coords) -> int {
        (c.2 * self.n[1] + c.1) * self.n[0] + c.0
    }

    /// Cell stored at a position.
    pub open spec fn spec_coords(self, i: int) -> Coords {
        (i % (self.n[0] as int), (i / (self.n[0] as int)) % (self.n[1] as int),
            i / (self.n[0] * self.n[1]))
    }

    pub fn new(n: [usize; 3]) -> (r: Self)
        ensures
            r.n == n,
    {
        CellLayout { n }
    }

    /// Number of cells in the block.
    pub fn len(&self) -> (r: usize)
        requires
            self.wf(),
        ensures
            r == self.spec_len(),
    {
        proof {
            lemma_mul_is_associative(self.n[0] as int, self.n[1] as int, self.n[2] as int);
            assert(self.n[0] * self.n[1] <= self.n[0] * self.n[1] * self.n[2]) by (nonlinear_arith)
                requires self.n[2] > 0, self.n[0] > 0, self.n[1] > 0;
        }
        self.n[0] * self.n[1] * self.n[2]
    }

    /// Storage position of cell `c`: `(c.z * n.y + c.y) * n.x + c.x`.
    pub fn index(&self, c: [usize; 3]) -> (r: usize)
        requires
            self.n[0] > 0,
            self.spec_index(coords_of(c)) <= usize::MAX,
        ensures
            r == self.spec_index(coords_of(c)),
    {
        let n0 = self.n[0];
        let n1 = self.n[1];
        proof {
            let q = c[2] * n1 + c[1];
            assert(q <= q * n0 + c[0]) by (nonlinear_arith)
                requires n0 > 0, q >= 0, c[0] >= 0;
            assert(c[2] * n1 <= q);
        }
        (c[2] * n1 + c[1]) * n0 + c[0]
    }

    /// Cell stored at position `i`: `(i % n.x, (i / n.x) % n.y, i / (n.x * n.y))`.
    pub fn coords(&self, i: usize) -> (r: [usize; 3])
        requires
            self.wf(),
        ensures
            coords_of(r) == self.spec_coords(i as int),
    {
        let n0 = self.n[0];
        let n1 = self.n[1];
        proof {
            assert(n0 * n1 <= n0 * n1 * self.n[2]) by (nonlinear_arith)
                requires self.n[2] > 0, n0 > 0, n1 > 0;
            lemma_mul_strictly_positive(n0 as int, n1 as int);
        }
        [i % n0, (i / n0) % n1, i / (n0 * n1)]
    }
}

/// Every position of a block stores a cell of the block.
pub proof fn lemma_coords_in_range(l: CellLayout, i: int)
    requires
        l.wf(),
        0 <= i < l.spec_len(),
    ensures
        l.in_range(l.spec_coords(i)),
{
    let n0 = l.n[0] as int;
    let n1 = l.n[1] as int;
    let n2 = l.n[2] as int;
    lemma_mul_strictly_positive(n0, n1);
    lemma_fundamental_div_mod(i, n0);
    lemma_fundamental_div_mod(i / n0, n1);
    lemma_fundamental_div_mod(i, n0 * n1);
    lemma_mul_is_associative(n0, n1, n2);
    assert(i / (n0 * n1) < n2) by (nonlinear_arith)
        requires
            i == (n0 * n1) * (i / (n0 * n1)) + i % (n0 * n1),
            0 <= i % (n0 * n1),
            i < (n0 * n1) * n2,
            n0 * n1 > 0;
    assert(0 <= i / (n0 * n1)) by (nonlinear_arith)
        requires
            0 <= i, n0 * n1 > 0;
    assert(0 <= i / n0) by (nonlinear_arith)
        requires
            0 <= i, n0 > 0;
}

/// Every cell of a block is stored at a position of the block.
pub proof fn lemma_index_in_range(l: CellLayout, c: Coords)
    requires
        l.wf(),
        l.in_range(c),
    ensures
        0 <= l.spec_index(c) < l.spec_len(),
{
    let n0 = l.n[0] as int;
    let n1 = l.n[1] as int;
    let n2 = l.n[2] as int;
    assert(0 <= (c.2 * n1 + c.1) * n0 + c.0 < n0 * n1 * n2) by (nonlinear_arith)
        requires
            0 <= c.0 < n0,
            0 <= c.1 < n1,
            0 <= c.2 < n2;
}

/// Reading back the cell stored at the position of cell `c` gives `c`.
pub proof fn lemma_coords_of_index(l: CellLayout, c: Coords)
    requires
        l.wf(),
        l.in_range(c),
    ensures
        l.spec_coords(l.spec_index(c)) == c,
{
    let n0 = l.n[0] as int;
    let n1 = l.n[1] as int;
    let q = c.2 * n1 + c.1;
    let i = q * n0 + c.0;
    assert(q >= 0) by (nonlinear_arith)
        requires c.2 >= 0, n1 > 0, c.1 >= 0, q == c.2 * n1 + c.1;
    lemma_fundamental_div_mod_converse(i, n0, q, c.0);
    lemma_fundamental_div_mod_converse(q, n1, c.2, c.1);
    assert(i >= 0) by (nonlinear_arith)
        requires q >= 0, n0 > 0, c.0 >= 0, i == q * n0 + c.0;
    lemma_div_denominator(i, n0, n1);
}

/// Storing the cell read at position `i` stores it at `i` again.
pub proof fn lemma_index_of_coords(l: CellLayout, i: int)
    requires
        l.wf(),
        0 <= i,
    ensures
        l.spec_index(l.spec_coords(i)) == i,
{
    let n0 = l.n[0] as int;
    let n1 = l.n[1] as int;
    lemma_fundamental_div_mod(i, n0);
    lemma_fundamental_div_mod(i / n0, n1);
    lemma_div_denominator(i, n0, n1);
    let a = i / n0;
    assert((((a / n1) * n1 + a % n1) * n0 + i % n0) == i) by (nonlinear_arith)
        requires
            a == n1 * (a / n1) + a % n1,
            i == n0 * a + i % n0;
}

/// Distinct cells of a block are stored at distinct positions.
pub proof fn lemma_index_injective(l: CellLayout, a: Coords, b: Coords)
    requires
        l.wf(),
        l.in_range(a),
        l.in_range(b),
        l.spec_index(a) == l.spec_index(b),
    ensures
        a == b,
{
    lemma_coords_of_index(l, a);
    lemma_coords_of_index(l, b);
}

} // verus!
