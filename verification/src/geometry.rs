//! Rectangles and discs on the pixel grid: the shapes that region-scoped
//! redraws clear and paint.

use vstd::prelude::*;

verus! {

/// A fixed rectangle: origin at `(x, y)`, `w` columns wide, `h` rows tall.
#[derive(Clone, Copy, PartialEq, Eq, Structural)]
pub struct Rect {
    pub x: usize,
    pub y: usize,
    pub w: usize,
    pub h: usize,
}

/// Whether pixel `(x, y)` lies inside rectangle `r`.
pub open spec fn rect_contains(r: Rect, x: int, y: int) -> bool {
    r.x <= x < r.x + r.w && r.y <= y < r.y + r.h
}

impl Rect {
    /// Whether this rectangle lies entirely inside a `w`-by-`h` grid.
    pub open spec fn fits(self, w: int, h: int) -> bool {
        self.x + self.w <= w && self.y + self.h <= h
    }
}

/// Whether pixel `(x, y)` belongs to the filled disc whose bounding square
/// has its top-left corner at `(cx, cy)` and side `d`: the pixel's centre,
/// doubled to stay in integers, must lie within the disc's diameter.
pub open spec fn disc_contains(cx: int, cy: int, d: int, x: int, y: int) -> bool {
    let ex = 2 * (x - cx) + 1 - d;
    let ey = 2 * (y - cy) + 1 - d;
    ex * ex + ey * ey <= d * d
}

/// A pixel on the disc always lies inside the disc's bounding square.
pub proof fn lemma_disc_in_box(cx: int, cy: int, d: int, x: int, y: int)
    by (nonlinear_arith)
    requires
        d >= 0,
        disc_contains(cx, cy, d, x, y),
    ensures
        cx <= x < cx + d,
        cy <= y < cy + d,
{
}

/// Decide `disc_contains` for a pixel near the disc's bounding square.
pub fn disc_hit(cx: usize, cy: usize, d: usize, x: usize, y: usize) -> (r: bool)
    requires
        cx <= 65536 && cy <= 65536 && d <= 65536,
        x <= cx + d && y <= cy + d,
    ensures
        r == disc_contains(cx as int, cy as int, d as int, x as int, y as int),
{
    let ex: i64 = 2 * (x as i64 - cx as i64) + 1 - d as i64;
    let ey: i64 = 2 * (y as i64 - cy as i64) + 1 - d as i64;
    proof {
        assert(-262147 <= ex <= 262147);
        assert(-262147 <= ey <= 262147);
        assert(0 <= ex * ex <= 262147i64 * 262147i64) by (nonlinear_arith)
            requires
                -262147 <= ex <= 262147,
        ;
        assert(0 <= ey * ey <= 262147i64 * 262147i64) by (nonlinear_arith)
            requires
                -262147 <= ey <= 262147,
        ;
        assert(0 <= (d as i64) * (d as i64) <= 65536i64 * 65536i64) by (nonlinear_arith)
            requires
                0 <= d as i64 <= 65536,
        ;
    }
    ex * ex + ey * ey <= (d as i64) * (d as i64)
}

} // verus!
