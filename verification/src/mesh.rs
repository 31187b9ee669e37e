use vstd::prelude::*;
use vstd::arithmetic::div_mod::lemma_fundamental_div_mod_converse;

verus! {

/// Corner `j` (of 6) of the two triangles of a quad whose four vertices
/// start at `base`: (0, 1, 2) and (0, 2, 3).
pub open spec fn quad_corner(base: int, j: int) -> int {
    if j == 0 { base } else if j == 1 { base + 1 } else if j == 2 { base + 2 }
    else if j == 3 { base } else if j == 4 { base + 2 } else { base + 3 }
}

/// Triangle indices of a quad whose four vertices start at `base`.
pub fn quad_indices(base: u32) -> (r: [u32; 6])
    requires
        base + 3 <= u32::MAX,
    ensures
        forall|j: int| 0 <= j < 6 ==> #[trigger] r[j] == quad_corner(base as int, j),
{
    [base, base + 1, base + 2, base, base + 2, base + 3]
}

/// Index `q` of a latitude-longitude sphere with `segments` columns whose
/// `(rings + 1) x (segments + 1)` vertices start at `base`, row by row: each
/// grid cell gives the triangles (first, second, first + 1) and
/// (second, second + 1, first + 1), with `second` one row below `first`.
pub open spec fn sphere_entry(base: int, segments: int, q: int) -> int {
    let cell = q / 6;
    let first = base + (cell / segments) * (segments + 1) + cell % segments;
    let second = first + segments + 1;
    let j = q % 6;
    if j == 0 { first } else if j == 1 { second } else if j == 2 { first + 1 }
    else if j == 3 { second } else if j == 4 { second + 1 } else { first + 1 }
}

proof fn lemma_sphere_position(segments: int, r: int, s: int, j: int)
    requires
        segments > 0,
        0 <= r,
        0 <= s < segments,
        0 <= j < 6,
    ensures
        (6 * (r * segments + s) + j) / 6 == r * segments + s,
        (6 * (r * segments + s) + j) % 6 == j,
        (r * segments + s) / segments == r,
        (r * segments + s) % segments == s,
{
    lemma_fundamental_div_mod_converse(6 * (r * segments + s) + j, 6, r * segments + s, j);
    lemma_fundamental_div_mod_converse(r * segments + s, segments, r, s);
}

/// Triangle indices of a sphere with `segments` columns and `rings` rows of
/// cells whose vertices start at `base`.
pub fn sphere_indices(base: u32, segments: u32, rings: u32) -> (r: Vec<u32>)
    requires
        segments > 0,
        base + (rings + 1) * (segments + 1) <= u32::MAX,
    ensures
        r@.len() == 6 * rings * segments,
        forall|q: int| 0 <= q < r@.len() ==> #[trigger] r@[q] == sphere_entry(base as int, segments as int, q),
{
    let mut out: Vec<u32> = Vec::new();
    let mut r: u32 = 0;
    while r < rings
        invariant
            segments > 0,
            base + (rings + 1) * (segments + 1) <= u32::MAX,
            r <= rings,
            out@.len() == 6 * r * segments,
            forall|q: int| 0 <= q < out@.len() ==> #[trigger] out@[q] == sphere_entry(base as int, segments as int, q),
        decreases rings - r,
    {
        proof {
            assert(6 * r * segments == 6 * (r * segments + 0)) by (nonlinear_arith);
        }
        let mut s: u32 = 0;
        while s < segments
            invariant
                segments > 0,
                base + (rings + 1) * (segments + 1) <= u32::MAX,
                r < rings,
                s <= segments,
                out@.len() == 6 * (r * segments + s),
                forall|q: int| 0 <= q < out@.len() ==> #[trigger] out@[q] == sphere_entry(base as int, segments as int, q),
            decreases segments - s,
        {
            proof {
                assert((r + 1) * (segments + 1) + 0 <= (rings + 1) * (segments + 1)) by (nonlinear_arith)
                    requires r < rings, segments > 0;
                assert(r * (segments + 1) + s + segments + 2 <= (r + 1) * (segments + 1) + segments + 1) by (nonlinear_arith)
                    requires s < segments;
                assert((r + 1) * (segments + 1) + segments + 1 <= (rings + 1) * (segments + 1)) by (nonlinear_arith)
                    requires r + 1 < rings + 1, r < rings;
            }
            let first = base + (r * (segments + 1) + s);
            let second = first + segments + 1;
            let start = out.len();
            out.push(first);
            out.push(second);
            out.push(first + 1);
            out.push(second);
            out.push(second + 1);
            out.push(first + 1);
            proof {
                assert forall|q: int| 0 <= q < out@.len() implies #[trigger] out@[q] == sphere_entry(
                    base as int, segments as int, q) by {
                    if q >= start {
                        let j = q - start;
                        lemma_sphere_position(segments as int, r as int, s as int, j);
                        assert(q == 6 * (r * segments + s) + j);
                    }
                }
                assert(out@.len() == 6 * (r * segments + s + 1)) by (nonlinear_arith)
                    requires out@.len() == 6 * (r * segments + s) + 6;
            }
            s += 1;
        }
        proof {
            assert(6 * (r * segments + segments) == 6 * (r + 1) * segments) by (nonlinear_arith);
        }
        r += 1;
    }
    out
}

/// Index `q` of a cylinder wall with `segments` columns whose vertices
/// alternate bottom and top, starting at `base`: column `s` gives
/// (i, i + 1, i + 2) and (i + 1, i + 3, i + 2) with `i = base + 2 s`.
pub open spec fn cylinder_entry(base: int, q: int) -> int {
    let i = base + 2 * (q / 6);
    let j = q % 6;
    if j == 0 { i } else if j == 1 { i + 1 } else if j == 2 { i + 2 }
    else if j == 3 { i + 1 } else if j == 4 { i + 3 } else { i + 2 }
}

/// Triangle indices of a cylinder wall with `segments` columns whose
/// `2 (segments + 1)` vertices start at `base`.
pub fn cylinder_indices(base: u32, segments: u32) -> (r: Vec<u32>)
    requires
        base + 2 * (segments + 1) <= u32::MAX,
    ensures
        r@.len() == 6 * segments,
        forall|q: int| 0 <= q < r@.len() ==> #[trigger] r@[q] == cylinder_entry(base as int, q),
{
    let mut out: Vec<u32> = Vec::new();
    let mut s: u32 = 0;
    while s < segments
        invariant
            base + 2 * (segments + 1) <= u32::MAX,
            s <= segments,
            out@.len() == 6 * s,
            forall|q: int| 0 <= q < out@.len() ==> #[trigger] out@[q] == cylinder_entry(base as int, q),
        decreases segments - s,
    {
        let i = base + s * 2;
        let start = out.len();
        out.push(i);
        out.push(i + 1);
        out.push(i + 2);
        out.push(i + 1);
        out.push(i + 3);
        out.push(i + 2);
        proof {
            assert forall|q: int| 0 <= q < out@.len() implies #[trigger] out@[q] == cylinder_entry(base as int, q) by {
                if q >= start {
                    let j = q - start;
                    lemma_fundamental_div_mod_converse(q, 6, s as int, j);
                }
            }
        }
        s += 1;
    }
    out
}

/// Every sphere index refers to one of the sphere's own vertices.
pub proof fn law_sphere_indices_stay_in_mesh(base: int, segments: int, rings: int, q: int)
    requires
        segments > 0,
        rings >= 0,
        0 <= q < 6 * rings * segments,
    ensures
        base <= sphere_entry(base, segments, q) < base + (rings + 1) * (segments + 1),
{
    let cell = q / 6;
    vstd::arithmetic::div_mod::lemma_fundamental_div_mod(q, 6);
    vstd::arithmetic::div_mod::lemma_fundamental_div_mod(cell, segments);
    let r = cell / segments;
    let s = cell % segments;
    assert(0 <= cell < rings * segments) by (nonlinear_arith)
        requires q == 6 * cell + q % 6, 0 <= q % 6 < 6, 0 <= q < 6 * rings * segments;
    assert(0 <= r < rings) by (nonlinear_arith)
        requires cell == segments * r + s, 0 <= s < segments, 0 <= cell < rings * segments, segments > 0;
    assert(0 <= r * (segments + 1)) by (nonlinear_arith)
        requires 0 <= r, segments > 0;
    assert(r * (segments + 1) + s + segments + 2 < (rings + 1) * (segments + 1)) by (nonlinear_arith)
        requires 0 <= r < rings, 0 <= s < segments;
}

/// Every cylinder index refers to one of the cylinder's own vertices.
pub proof fn law_cylinder_indices_stay_in_mesh(base: int, segments: int, q: int)
    requires
        0 <= q < 6 * segments,
    ensures
        base <= cylinder_entry(base, q) < base + 2 * (segments + 1),
{
    vstd::arithmetic::div_mod::lemma_fundamental_div_mod(q, 6);
}

} // verus!
