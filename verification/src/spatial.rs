use vstd::prelude::*;
use crate::layout::{CellLayout, Coords, coords_of, lemma_index_in_range, lemma_index_injective};

verus! {

/// Sentinel that ends a bucket chain.
pub const NO_PARTICLE: i32 = -1;

/// The particles reached by following `next` from particle `j`, in order.
/// Every link points to a smaller index, so the walk ends.
pub open spec fn chain(next: Seq<i32>, j: int) -> Seq<usize>
    decreases j + 1,
{
    if j < 0 || j >= next.len() {
        Seq::empty()
    } else if next[j] >= j || next[j] < -1 {
        seq![j as usize]
    } else {
        seq![j as usize] + chain(next, next[j] as int)
    }
}

/// The cell a candidate address falls in, or -1 when it has none or lies
/// outside the grid.
pub open spec fn assigned_cell(l: CellLayout, cand: Option<[usize; 3]>) -> int {
    match cand {
        Some(c) => if l.in_range(coords_of(c)) { l.spec_index(coords_of(c)) } else { -1 },
        None => -1,
    }
}

/// The particles among the first `upto` whose cell is `c`, newest first.
pub open spec fn members(cells: Seq<int>, c: int, upto: int) -> Seq<usize>
    decreases upto,
{
    if upto <= 0 {
        Seq::empty()
    } else if cells[upto - 1] == c {
        seq![(upto - 1) as usize] + members(cells, c, upto - 1)
    } else {
        members(cells, c, upto - 1)
    }
}

/// The cells of each candidate address.
pub open spec fn assignment(l: CellLayout, cands: Seq<Option<[usize; 3]>>) -> Seq<int> {
    Seq::new(cands.len(), |i: int| assigned_cell(l, cands[i]))
}

/// Bucket grid of particle indices: one singly linked list per cell,
/// threaded through `next` and started at `head`.
pub struct CellGrid {
    layout: CellLayout,
    head: Vec<i32>,
    next: Vec<i32>,
}

/// Bound on the number of particles a grid can hold: indices are stored as `i32`.
pub open spec fn max_particles() -> int {
    0x7fff_ffff
}

impl CellGrid {
    pub closed spec fn spec_layout(&self) -> CellLayout {
        self.layout
    }

    /// Number of particle slots.
    pub closed spec fn capacity(&self) -> int {
        self.next@.len() as int
    }

    /// The particles listed in the bucket of cell `c`.
    pub closed spec fn bucket(&self, c: int) -> Seq<usize> {
        chain(self.next@, self.head@[c] as int)
    }

    pub closed spec fn wf(&self) -> bool {
        &&& self.layout.wf()
        &&& self.head@.len() == self.layout.spec_len()
        &&& self.next@.len() <= max_particles()
        &&& forall|c: int| 0 <= c < self.head@.len() ==>
                -1 <= #[trigger] self.head@[c] < self.next@.len()
        &&& forall|i: int| 0 <= i < self.next@.len() ==>
                -1 <= #[trigger] self.next@[i] < i
    }

    /// An empty grid of `dim` cells for `particles` particles.
    pub fn new(dim: [usize; 3], particles: usize) -> (r: Self)
        requires
            (CellLayout { n: dim }).wf(),
            particles <= max_particles(),
        ensures
            r.wf(),
            r.spec_layout().n == dim,
            r.capacity() == particles,
            forall|c: int| 0 <= c < r.spec_layout().spec_len() ==> (#[trigger] r.bucket(c)).len() == 0,
    {
        let layout = CellLayout::new(dim);
        let cells = layout.len();
        let head: Vec<i32> = vec![NO_PARTICLE; cells];
        let next: Vec<i32> = vec![NO_PARTICLE; particles];
        let r = CellGrid { layout, head, next };
        assert forall|c: int| 0 <= c < r.head@.len() implies r.head@[c] == -1 by {
            assert(cloned::<i32>(NO_PARTICLE, r.head@[c]));
        }
        assert forall|i: int| 0 <= i < r.next@.len() implies r.next@[i] == -1 by {
            assert(cloned::<i32>(NO_PARTICLE, r.next@[i]));
        }
        r
    }

    /// Grid dimensions.
    pub fn dim(&self) -> (r: [usize; 3])
        ensures
            r == self.spec_layout().n,
    {
        self.layout.n
    }

    /// Storage position of a cell: `c.x + c.y * d.x + c.z * (d.x * d.y)`.
    pub fn cell_index(&self, c: [usize; 3]) -> (r: usize)
        requires
            self.wf(),
            self.spec_layout().in_range(coords_of(c)),
        ensures
            r == self.spec_layout().spec_index(coords_of(c)),
            r < self.spec_layout().spec_len(),
    {
        proof {
            lemma_index_in_range(self.layout, coords_of(c));
        }
        self.layout.index(c)
    }

    /// The cell of a candidate address, when it lies inside the grid.
    pub fn cell_of(&self, cand: Option<[usize; 3]>) -> (r: Option<usize>)
        requires
            self.wf(),
        ensures
            r matches Some(i) ==> i == assigned_cell(self.spec_layout(), cand)
                && i < self.spec_layout().spec_len(),
            r is None <==> assigned_cell(self.spec_layout(), cand) == -1,
    {
        match cand {
            Some(c) => {
                if c[0] < self.layout.n[0] && c[1] < self.layout.n[1] && c[2] < self.layout.n[2] {
                    Some(self.cell_index(c))
                } else {
                    None
                }
            },
            None => None,
        }
    }
}

/// A chain only reads the links at or below its first particle.
proof fn lemma_chain_frame(n1: Seq<i32>, n2: Seq<i32>, j: int)
    requires
        n1.len() == n2.len(),
        forall|k: int| 0 <= k <= j && k < n1.len() ==> n1[k] == n2[k],
    ensures
        chain(n1, j) == chain(n2, j),
    decreases j + 1,
{
    if j < 0 || j >= n1.len() {
    } else if n1[j] >= j || n1[j] < -1 {
    } else {
        lemma_chain_frame(n1, n2, n1[j] as int);
    }
}

impl CellGrid {
    /// Sorts the particles into the buckets of their cells. Candidate `i`
    /// is the cell address of particle `i` (`None` when it lies below the
    /// grid origin); addresses outside the grid leave the particle unlisted.
    /// Afterwards the bucket of each cell lists exactly the particles
    /// assigned to it, newest first.
    pub fn build(&mut self, cands: &Vec<Option<[usize; 3]>>)
        requires
            old(self).wf(),
            cands@.len() <= max_particles(),
        ensures
            final(self).wf(),
            final(self).spec_layout() == old(self).spec_layout(),
            final(self).capacity() == cands@.len(),
            forall|c: int| 0 <= c < final(self).spec_layout().spec_len() ==>
                #[trigger] final(self).bucket(c) == members(
                    assignment(final(self).spec_layout(), cands@), c, cands@.len() as int),
    {
        let cells = self.head.len();
        let mut c: usize = 0;
        while c < cells
            invariant
                self.wf(),
                self.layout == old(self).layout,
                self.next@ == old(self).next@,
                cells == self.head@.len(),
                c <= cells,
                forall|k: int| 0 <= k < c ==> #[trigger] self.head@[k] == -1,
            decreases cells - c,
        {
            self.head.set(c, NO_PARTICLE);
            c += 1;
        }
        let n = cands.len();
        if self.next.len() != n {
            self.next.resize(n, NO_PARTICLE);
            assert forall|i: int| 0 <= i < self.next@.len() implies -1 <= #[trigger] self.next@[i] < i by {
                if i >= old(self).next@.len() {
                    assert(cloned::<i32>(NO_PARTICLE, self.next@[i]));
                } else {
                    assert(self.next@[i] == old(self).next@[i]);
                }
            }
        }
        let ghost assign = assignment(self.layout, cands@);
        let mut i: usize = 0;
        while i < n
            invariant
                self.wf(),
                self.layout == old(self).layout,
                n == cands@.len(),
                self.next@.len() == n,
                i <= n,
                assign == assignment(self.layout, cands@),
                forall|k: int| 0 <= k < self.head@.len() ==> #[trigger] self.head@[k] < i,
                forall|k: int| 0 <= k < self.head@.len() ==>
                    #[trigger] self.bucket(k) == members(assign, k, i as int),
            decreases n - i,
        {
            let ghost old_next = self.next@;
            let ghost old_head = self.head@;
            assert forall|k: int| 0 <= k < old_head.len() implies
                #[trigger] chain(old_next, old_head[k] as int) == members(assign, k, i as int) by {
                assert(self.bucket(k) == members(assign, k, i as int));
            }
            let cell = self.cell_of(cands[i]);
            assert(assign[i as int] == assigned_cell(self.layout, cands@[i as int]));
            match cell {
                Some(idx) => {
                    let h = self.head[idx];
                    self.next.set(i, h);
                    self.head.set(idx, i as i32);
                    assert forall|k: int| 0 <= k < self.head@.len() implies
                        #[trigger] self.bucket(k) == members(assign, k, i + 1) by {
                        if k == idx {
                            lemma_chain_frame(self.next@, old_next, h as int);
                            assert(self.next@[i as int] == h);
                            assert(chain(self.next@, i as int) == seq![i as usize] + chain(self.next@, h as int));
                        } else {
                            assert(self.head@[k] == old_head[k]);
                            lemma_chain_frame(self.next@, old_next, old_head[k] as int);
                        }
                    }
                },
                None => {
                    assert forall|k: int| 0 <= k < self.head@.len() implies
                        #[trigger] self.bucket(k) == members(assign, k, i + 1) by {
                        assert(members(assign, k, i + 1) == members(assign, k, i as int));
                    }
                },
            }
            i += 1;
        }
    }
}

/// Neighbour `k` (of 27) of a cell address: offsets run over -1..=1 on
/// each axis, `z` slowest and `x` fastest.
pub open spec fn neighbour_cell(center: Coords, k: int) -> Coords {
    (center.0 + k % 3 - 1, center.1 + (k / 3) % 3 - 1, center.2 + k / 9 - 1)
}

/// Whether cell `c` lies in the 3 x 3 x 3 block of cells around `center`.
pub open spec fn adjacent(center: Coords, c: Coords) -> bool {
    &&& center.0 - 1 <= c.0 <= center.0 + 1
    &&& center.1 - 1 <= c.1 <= center.1 + 1
    &&& center.2 - 1 <= c.2 <= center.2 + 1
}

impl CellGrid {
    /// The particles listed in the buckets of the first `k` neighbour cells
    /// of `center` that lie inside the grid, bucket after bucket.
    pub closed spec fn gathered(&self, center: Coords, k: int) -> Seq<usize>
        decreases k,
    {
        if k <= 0 {
            Seq::empty()
        } else {
            let c = neighbour_cell(center, k - 1);
            self.gathered(center, k - 1) + if self.layout.in_range(c) {
                self.bucket(self.layout.spec_index(c))
            } else {
                Seq::empty()
            }
        }
    }

    /// The particles listed in the cells around `center` (the cell itself
    /// and its 26 neighbours, those inside the grid), cell by cell with `z`
    /// slowest and `x` fastest, each bucket newest first.
    pub fn neighbours(&self, center: [isize; 3]) -> (r: Vec<usize>)
        requires
            self.wf(),
        ensures
            r@ == self.gathered((center[0] as int, center[1] as int, center[2] as int), 27),
    {
        let ghost cc = (center[0] as int, center[1] as int, center[2] as int);
        let mut r: Vec<usize> = Vec::new();
        let mut k: usize = 0;
        while k < 27
            invariant
                self.wf(),
                k <= 27,
                cc == (center[0] as int, center[1] as int, center[2] as int),
                r@ == self.gathered(cc, k as int),
            decreases 27 - k,
        {
            let x: i128 = center[0] as i128 + (k % 3) as i128 - 1;
            let y: i128 = center[1] as i128 + ((k / 3) % 3) as i128 - 1;
            let z: i128 = center[2] as i128 + (k / 9) as i128 - 1;
            let ghost before = r@;
            if 0 <= x && x < self.layout.n[0] as i128 && 0 <= y && y < self.layout.n[1] as i128
                && 0 <= z && z < self.layout.n[2] as i128 {
                let c = self.cell_index([x as usize, y as usize, z as usize]);
                let mut j: i32 = self.head[c];
                while j != NO_PARTICLE
                    invariant
                        self.wf(),
                        c < self.head@.len(),
                        -1 <= j < self.next@.len(),
                        r@ + chain(self.next@, j as int) == before + self.bucket(c as int),
                    decreases j + 1,
                {
                    let ju = j as usize;
                    r.push(ju);
                    let nj = self.next[ju];
                    assert(chain(self.next@, j as int) == seq![ju] + chain(self.next@, nj as int));
                    j = nj;
                }
            }
            k += 1;
        }
        r
    }
}

/// A particle is listed for cell `c` exactly when it is one of the first
/// `upto` particles and its cell is `c`.
pub proof fn lemma_members_contains(cells: Seq<int>, c: int, upto: int, j: int)
    requires
        0 <= upto <= cells.len() <= usize::MAX,
        0 <= j <= usize::MAX,
    ensures
        members(cells, c, upto).contains(j as usize) <==> (j < upto && cells[j] == c),
    decreases upto,
{
    if upto > 0 {
        lemma_members_contains(cells, c, upto - 1, j);
        if cells[upto - 1] == c {
            let rest = members(cells, c, upto - 1);
            assert(members(cells, c, upto) == seq![(upto - 1) as usize] + rest);
            if members(cells, c, upto).contains(j as usize) {
                let w = choose|w: int| 0 <= w < members(cells, c, upto).len()
                    && members(cells, c, upto)[w] == j as usize;
                if w > 0 {
                    assert(rest[w - 1] == j as usize);
                }
            }
            if j < upto && cells[j] == c && j != upto - 1 {
                let w = choose|w: int| 0 <= w < rest.len() && rest[w] == j as usize;
                assert(members(cells, c, upto)[w + 1] == j as usize);
            }
            if j == upto - 1 {
                assert(members(cells, c, upto)[0] == j as usize);
            }
        } else {
            assert(members(cells, c, upto) == members(cells, c, upto - 1));
        }
    }
}

proof fn lemma_neighbour_digits(center: Coords, c: Coords)
    requires
        adjacent(center, c),
    ensures
        ({
            let k = (c.2 - center.2 + 1) * 9 + (c.1 - center.1 + 1) * 3 + (c.0 - center.0 + 1);
            0 <= k < 27 && neighbour_cell(center, k) == c
        }),
{
    let a = c.2 - center.2 + 1;
    let b = c.1 - center.1 + 1;
    let d = c.0 - center.0 + 1;
    let k = a * 9 + b * 3 + d;
    vstd::arithmetic::div_mod::lemma_fundamental_div_mod_converse(k, 3, a * 3 + b, d);
    vstd::arithmetic::div_mod::lemma_fundamental_div_mod_converse(a * 3 + b, 3, a, b);
    vstd::arithmetic::div_mod::lemma_fundamental_div_mod_converse(k, 9, a, b * 3 + d);
}

proof fn lemma_neighbour_cells_adjacent(center: Coords, k: int)
    requires
        0 <= k < 27,
    ensures
        adjacent(center, neighbour_cell(center, k)),
{
    vstd::arithmetic::div_mod::lemma_fundamental_div_mod(k, 3);
    vstd::arithmetic::div_mod::lemma_fundamental_div_mod(k / 3, 3);
    assert(0 <= k / 9 < 3);
    assert(0 <= k / 3);
}

impl CellGrid {
    /// A particle is gathered from the first `k` neighbour cells exactly
    /// when one of them inside the grid lists it.
    pub proof fn lemma_gathered_contains(&self, center: Coords, k: int, j: usize)
        requires
            0 <= k,
        ensures
            self.gathered(center, k).contains(j) <==> exists|m: int| #![trigger neighbour_cell(center, m)]
                0 <= m < k && self.spec_layout().in_range(neighbour_cell(center, m))
                && self.bucket(self.spec_layout().spec_index(neighbour_cell(center, m))).contains(j),
        decreases k,
    {
        if k > 0 {
            self.lemma_gathered_contains(center, k - 1, j);
            let c = neighbour_cell(center, k - 1);
            let prev = self.gathered(center, k - 1);
            let add = if self.layout.in_range(c) {
                self.bucket(self.layout.spec_index(c))
            } else {
                Seq::empty()
            };
            assert(self.gathered(center, k) == prev + add);
            if self.gathered(center, k).contains(j) {
                let w = choose|w: int| 0 <= w < (prev + add).len() && (prev + add)[w] == j;
                if w >= prev.len() {
                    assert(add[w - prev.len()] == j);
                    assert(add.contains(j));
                } else {
                    assert(prev[w] == j);
                    assert(prev.contains(j));
                }
            }
            if exists|m: int| #![trigger neighbour_cell(center, m)]
                0 <= m < k && self.spec_layout().in_range(neighbour_cell(center, m))
                && self.bucket(self.spec_layout().spec_index(neighbour_cell(center, m))).contains(j) {
                let m = choose|m: int| #![trigger neighbour_cell(center, m)]
                    0 <= m < k && self.spec_layout().in_range(neighbour_cell(center, m))
                    && self.bucket(self.spec_layout().spec_index(neighbour_cell(center, m))).contains(j);
                if m == k - 1 {
                    let w = choose|w: int| 0 <= w < add.len() && add[w] == j;
                    assert((prev + add)[prev.len() + w] == j);
                } else {
                    let w = choose|w: int| 0 <= w < prev.len() && prev[w] == j;
                    assert((prev + add)[w] == j);
                }
            }
        }
    }
}

/// The particles listed for a cell are all below `upto` and strictly
/// decreasing, hence listed once each.
proof fn lemma_members_decreasing(cells: Seq<int>, c: int, upto: int)
    requires
        0 <= upto <= cells.len() <= usize::MAX,
    ensures
        forall|a: int| 0 <= a < members(cells, c, upto).len() ==> #[trigger] members(cells, c, upto)[a] < upto,
        forall|a: int, b: int| 0 <= a < b < members(cells, c, upto).len() ==>
            #[trigger] members(cells, c, upto)[a] > #[trigger] members(cells, c, upto)[b],
    decreases upto,
{
    if upto > 0 {
        lemma_members_decreasing(cells, c, upto - 1);
        let rest = members(cells, c, upto - 1);
        if cells[upto - 1] == c {
            let m = members(cells, c, upto);
            assert(m == seq![(upto - 1) as usize] + rest);
            assert forall|a: int| 0 <= a < m.len() implies #[trigger] m[a] < upto by {
                if a > 0 {
                    assert(m[a] == rest[a - 1]);
                }
            }
            assert forall|a: int, b: int| 0 <= a < b < m.len() implies #[trigger] m[a] > #[trigger] m[b] by {
                assert(m[b] == rest[b - 1]);
                if a > 0 {
                    assert(m[a] == rest[a - 1]);
                }
            }
        }
    }
}

proof fn lemma_neighbour_index_unique(center: Coords, k1: int, k2: int)
    requires
        0 <= k1 < 27,
        0 <= k2 < 27,
        neighbour_cell(center, k1) == neighbour_cell(center, k2),
    ensures
        k1 == k2,
{
    vstd::arithmetic::div_mod::lemma_fundamental_div_mod(k1, 3);
    vstd::arithmetic::div_mod::lemma_fundamental_div_mod(k1 / 3, 3);
    vstd::arithmetic::div_mod::lemma_fundamental_div_mod(k2, 3);
    vstd::arithmetic::div_mod::lemma_fundamental_div_mod(k2 / 3, 3);
    vstd::arithmetic::div_mod::lemma_div_denominator(k1, 3, 3);
    vstd::arithmetic::div_mod::lemma_div_denominator(k2, 3, 3);
}

impl CellGrid {
    proof fn lemma_gathered_unique(
        &self,
        cands: Seq<Option<[usize; 3]>>,
        center: Coords,
        k: int,
    )
        requires
            self.wf(),
            self.capacity() == cands.len(),
            0 <= k <= 27,
            forall|c: int| 0 <= c < self.spec_layout().spec_len() ==>
                #[trigger] self.bucket(c) == members(assignment(self.spec_layout(), cands), c,
                    cands.len() as int),
        ensures
            self.gathered(center, k).no_duplicates(),
        decreases k,
    {
        if k > 0 {
            let l = self.layout;
            let a = assignment(l, cands);
            self.lemma_gathered_unique(cands, center, k - 1);
            let nc = neighbour_cell(center, k - 1);
            let prev = self.gathered(center, k - 1);
            if l.in_range(nc) {
                let ci = l.spec_index(nc);
                lemma_index_in_range(l, nc);
                let add = self.bucket(ci);
                lemma_members_decreasing(a, ci, cands.len() as int);
                assert(self.gathered(center, k) == prev + add);
                assert forall|x: int, y: int| 0 <= x < y < (prev + add).len() implies
                    (prev + add)[x] != (prev + add)[y] by {
                    if x >= prev.len() {
                        assert((prev + add)[x] == add[x - prev.len()]);
                        assert((prev + add)[y] == add[y - prev.len()]);
                    } else if y >= prev.len() {
                        let j = (prev + add)[y];
                        assert(j == add[y - prev.len()]);
                        assert(add.contains(j));
                        assert(prev[x] == (prev + add)[x]);
                        if prev[x] == j {
                            assert(prev.contains(j));
                            self.lemma_gathered_contains(center, k - 1, j);
                            let m = choose|m: int| #![trigger neighbour_cell(center, m)]
                                0 <= m < k - 1 && l.in_range(neighbour_cell(center, m))
                                && self.bucket(l.spec_index(neighbour_cell(center, m))).contains(j);
                            let cm = neighbour_cell(center, m);
                            lemma_index_in_range(l, cm);
                            lemma_members_contains(a, l.spec_index(cm), cands.len() as int, j as int);
                            lemma_members_contains(a, ci, cands.len() as int, j as int);
                            lemma_index_injective(l, cm, nc);
                            lemma_neighbour_index_unique(center, m, k - 1);
                        }
                    } else {
                        assert((prev + add)[x] == prev[x]);
                        assert((prev + add)[y] == prev[y]);
                    }
                }
            } else {
                assert(self.gathered(center, k) =~= prev);
            }
        }
    }
}

/// Neighbour search lists every particle at most once: buckets hold each
/// particle once, particles sit in one cell, and the 27 cells visited are
/// distinct.
pub proof fn law_neighbour_search_lists_each_once(
    g: CellGrid,
    cands: Seq<Option<[usize; 3]>>,
    center: Coords,
)
    requires
        g.wf(),
        g.capacity() == cands.len(),
        forall|c: int| 0 <= c < g.spec_layout().spec_len() ==>
            #[trigger] g.bucket(c) == members(assignment(g.spec_layout(), cands), c, cands.len() as int),
    ensures
        g.gathered(center, 27).no_duplicates(),
{
    g.lemma_gathered_unique(cands, center, 27);
}

/// Neighbour search is exact: once the grid has been built from the cell
/// addresses `cands`, the particles gathered around `center` are exactly
/// those whose address lies inside the grid, in the cell `center` itself or
/// in one of its 26 neighbours.
pub proof fn law_neighbour_search_is_exact(
    g: CellGrid,
    cands: Seq<Option<[usize; 3]>>,
    center: Coords,
    j: usize,
)
    requires
        g.wf(),
        g.capacity() == cands.len(),
        forall|c: int| 0 <= c < g.spec_layout().spec_len() ==>
            #[trigger] g.bucket(c) == members(assignment(g.spec_layout(), cands), c, cands.len() as int),
    ensures
        g.gathered(center, 27).contains(j) <==> (j < cands.len() && ({
            let cand = cands[j as int];
            &&& cand is Some
            &&& g.spec_layout().in_range(coords_of(cand->0))
            &&& adjacent(center, coords_of(cand->0))
        })),
{
    let l = g.spec_layout();
    let a = assignment(l, cands);
    g.lemma_gathered_contains(center, 27, j);
    if g.gathered(center, 27).contains(j) {
        let m = choose|m: int| #![trigger neighbour_cell(center, m)]
            0 <= m < 27 && l.in_range(neighbour_cell(center, m))
            && g.bucket(l.spec_index(neighbour_cell(center, m))).contains(j);
        let nc = neighbour_cell(center, m);
        lemma_index_in_range(l, nc);
        lemma_members_contains(a, l.spec_index(nc), cands.len() as int, j as int);
        assert(a[j as int] == l.spec_index(nc));
        let cand = cands[j as int];
        assert(cand is Some && l.in_range(coords_of(cand->0)));
        lemma_index_injective(l, coords_of(cand->0), nc);
        lemma_neighbour_cells_adjacent(center, m);
    }
    if j < cands.len() && cands[j as int] is Some && l.in_range(coords_of(cands[j as int]->0))
        && adjacent(center, coords_of(cands[j as int]->0)) {
        let cj = coords_of(cands[j as int]->0);
        lemma_neighbour_digits(center, cj);
        let k = (cj.2 - center.2 + 1) * 9 + (cj.1 - center.1 + 1) * 3 + (cj.0 - center.0 + 1);
        lemma_index_in_range(l, cj);
        lemma_members_contains(a, l.spec_index(cj), cands.len() as int, j as int);
        assert(neighbour_cell(center, k) == cj);
        assert(g.bucket(l.spec_index(neighbour_cell(center, k))).contains(j));
    }
}

} // verus!
