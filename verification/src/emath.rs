use vstd::prelude::*;

verus! {

/// Side length of one grid cell, in pixels.
pub const CELL: usize = 32;

/// Division with the quotient rounded so the remainder is never negative —
/// the division the specifications use — computed for either sign of
/// either operand.
fn div_euclid_i64(x: i64, d: i64) -> (q: i64)
    requires
        d != 0,
        -0x4000_0000_0000_0000 <= x <= 0x4000_0000_0000_0000,
        -0x4000_0000_0000_0000 <= d <= 0x4000_0000_0000_0000,
    ensures
        q == x as int / d as int,
        -0x4000_0000_0000_0000 <= q <= 0x4000_0000_0000_0000,
{
    proof {
        assert(-0x4000_0000_0000_0000 <= (x as int) / (d as int) <= 0x4000_0000_0000_0000)
            by (nonlinear_arith)
            requires
                d != 0,
                -0x4000_0000_0000_0000 <= x <= 0x4000_0000_0000_0000,
        ;
    }
    if d > 0 {
        if x >= 0 {
            x / d
        } else {
            proof {
                assert((x as int) / (d as int) == -((-(x as int) + d - 1) / (d as int)))
                    by (nonlinear_arith)
                    requires
                        d > 0,
                        x < 0,
                ;
            }
            -((-x + (d - 1)) / d)
        }
    } else {
        let e = -d;
        proof {
            assert((x as int) / (d as int) == -((x as int) / (e as int))) by (nonlinear_arith)
                requires
                    e > 0,
                    d == -(e as int),
            ;
            assert(-0x4000_0000_0000_0000 <= (x as int) / (e as int) <= 0x4000_0000_0000_0000)
                by (nonlinear_arith)
                requires
                    e > 0,
                    -0x4000_0000_0000_0000 <= x <= 0x4000_0000_0000_0000,
            ;
        }
        let q0: i64 = if x >= 0 {
            x / e
        } else {
            proof {
                assert((x as int) / (e as int) == -((-(x as int) + e - 1) / (e as int)))
                    by (nonlinear_arith)
                    requires
                        e > 0,
                        x < 0,
                ;
            }
            -((-x + (e - 1)) / e)
        };
        -q0
    }
}

/// Linearly map `s` from `from_range` onto `to_range`, in the direction and
/// at the slope the two ranges give.  `s` may lie outside `from_range`, and
/// either range may run downward; the bounds only keep the intermediate
/// product within the machine word.
pub fn map_range(from_range: (i64, i64), to_range: (i64, i64), s: i64) -> (r: i64)
    requires
        from_range.0 != from_range.1,
        -0x4000_0000 <= from_range.0 <= 0x4000_0000,
        -0x4000_0000 <= from_range.1 <= 0x4000_0000,
        -0x4000_0000 <= to_range.0 <= 0x4000_0000,
        -0x4000_0000 <= to_range.1 <= 0x4000_0000,
        -0x4000_0000 <= s <= 0x4000_0000,
    ensures
        r == to_range.0 + (s - from_range.0) * (to_range.1 - to_range.0) / (from_range.1
            - from_range.0),
{
    let num = s - from_range.0;
    let span = to_range.1 - to_range.0;
    let den = from_range.1 - from_range.0;
    proof {
        assert(-0x4000_0000_0000_0000 <= num * span <= 0x4000_0000_0000_0000) by (nonlinear_arith)
            requires
                -0x8000_0000 <= num <= 0x8000_0000,
                -0x8000_0000 <= span <= 0x8000_0000,
        ;
    }
    let q = div_euclid_i64(num * span, den);
    to_range.0 + q
}

/// Row-major index of the cell at `(x, y)` in a grid `width` cells wide.
pub fn xy_to_i(width: usize, x: usize, y: usize) -> (i: usize)
    requires
        y * width + x <= usize::MAX,
    ensures
        i == y * width + x,
{
    y * width + x
}

/// Grid coordinate of the cell with row-major index `i`.
pub fn i_to_xy(width: usize, i: usize) -> (xy: (usize, usize))
    requires
        width > 0,
    ensures
        xy == (i % width, i / width),
{
    (i % width, i / width)
}

/// The grid cell that contains the pixel position `pos`.
pub fn pos_to_grid_pos(pos: &(usize, usize)) -> (gp: (usize, usize))
    ensures
        gp == (pos.0 / CELL, pos.1 / CELL),
{
    (pos.0 / CELL, pos.1 / CELL)
}

/// The pixel position of the top-left corner of the grid cell `grid_pos`.
pub fn grid_pos_to_pos(grid_pos: &(usize, usize)) -> (p: (usize, usize))
    requires
        grid_pos.0 * CELL <= usize::MAX,
        grid_pos.1 * CELL <= usize::MAX,
    ensures
        p.0 == grid_pos.0 * CELL,
        p.1 == grid_pos.1 * CELL,
{
    (grid_pos.0 * CELL, grid_pos.1 * CELL)
}

} // verus!
