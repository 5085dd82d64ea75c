//! The display surface: a fixed-resolution grid of 16-bit pixels with
//! region-scoped partial redraws. A redraw first paints the region's clear
//! rectangle in the background colour, then paints the new content inside
//! that rectangle, so stale content from a previous, wider value is always
//! erased. Every redraw guarantees that pixels outside the region's clear
//! rectangle are left bit-for-bit unchanged.

use vstd::prelude::*;
use crate::geometry::{Rect, rect_contains, disc_contains, disc_hit};
use crate::font::{glyph_on, glyph_lit};

verus! {

/// Horizontal and vertical inset of a region's text from the region origin.
pub const TEXT_INSET: usize = 10;

proof fn lemma_rowmajor_index(w: int, h: int, x: int, y: int)
    by (nonlinear_arith)
    requires
        0 <= x < w,
        0 <= y < h,
    ensures
        0 <= y * w + x < w * h,
{
}

proof fn lemma_rowmajor_distinct(w: int, x1: int, y1: int, x2: int, y2: int)
    by (nonlinear_arith)
    requires
        0 <= x1 < w,
        0 <= x2 < w,
        0 <= y1,
        0 <= y2,
        !(x1 == x2 && y1 == y2),
    ensures
        y1 * w + x1 != y2 * w + x2,
{
}

/// A raster of 16-bit pixels, stored row-major.
pub struct Surface {
    width: usize,
    height: usize,
    pixels: Vec<u16>,
}

impl Surface {
    /// The surface's structural invariant: the pixel store covers exactly
    /// `width * height` cells, and both dimensions are small enough that all
    /// coordinate arithmetic stays far from overflow.
    pub closed spec fn wf(self) -> bool {
        &&& self.pixels.len() == self.width * self.height
        &&& self.width <= 4096
        &&& self.height <= 4096
    }

    pub closed spec fn spec_width(self) -> int {
        self.width as int
    }

    pub closed spec fn spec_height(self) -> int {
        self.height as int
    }

    /// The colour of the pixel at column `x`, row `y`.
    pub closed spec fn pix(self, x: int, y: int) -> u16 {
        self.pixels[y * self.spec_width() + x]
    }

    /// Whether `(x, y)` is a pixel of this surface.
    pub open spec fn in_bounds(self, x: int, y: int) -> bool {
        0 <= x < self.spec_width() && 0 <= y < self.spec_height()
    }

    /// Whether `other` has the same dimensions as this surface.
    pub open spec fn same_dims(self, other: Surface) -> bool {
        other.spec_width() == self.spec_width() && other.spec_height() == self.spec_height()
    }

    /// A fresh surface with every pixel set to `bg`.
    pub fn new(width: usize, height: usize, bg: u16) -> (s: Surface)
        requires
            width <= 4096,
            height <= 4096,
        ensures
            s.wf(),
            s.spec_width() == width,
            s.spec_height() == height,
            forall|x: int, y: int| s.in_bounds(x, y) ==> s.pix(x, y) == bg,
    {
        proof {
            assert(width * height <= 4096 * 4096) by (nonlinear_arith)
                requires
                    width <= 4096,
                    height <= 4096,
            ;
        }
        let n: usize = width * height;
        let mut pixels: Vec<u16> = Vec::new();
        let mut i: usize = 0;
        while i < n
            invariant
                i <= n,
                pixels.len() == i,
                forall|k: int| 0 <= k < i ==> pixels[k] == bg,
            decreases n - i,
        {
            pixels.push(bg);
            i = i + 1;
        }
        let s = Surface { width, height, pixels };
        proof {
            assert forall|x: int, y: int| s.in_bounds(x, y) implies s.pix(x, y) == bg by {
                lemma_rowmajor_index(s.spec_width(), s.spec_height(), x, y);
            }
        }
        s
    }

    pub fn width(&self) -> (w: usize)
        ensures
            w == self.spec_width(),
    {
        self.width
    }

    pub fn height(&self) -> (h: usize)
        ensures
            h == self.spec_height(),
    {
        self.height
    }

    /// Read one pixel.
    pub fn pixel(&self, x: usize, y: usize) -> (c: u16)
        requires
            self.wf(),
            self.in_bounds(x as int, y as int),
        ensures
            c == self.pix(x as int, y as int),
    {
        proof {
            lemma_rowmajor_index(self.spec_width(), self.spec_height(), x as int, y as int);
        }
        self.pixels[y * self.width + x]
    }

    /// Write one pixel; every other pixel keeps its colour.
    fn set_pixel(&mut self, x: usize, y: usize, c: u16)
        requires
            old(self).wf(),
            old(self).in_bounds(x as int, y as int),
        ensures
            final(self).wf(),
            old(self).same_dims(*final(self)),
            final(self).pix(x as int, y as int) == c,
            forall|i: int, j: int|
                old(self).in_bounds(i, j) && !(i == x && j == y) ==> final(self).pix(i, j)
                    == old(self).pix(i, j),
    {
        proof {
            lemma_rowmajor_index(self.spec_width(), self.spec_height(), x as int, y as int);
        }
        let idx: usize = y * self.width + x;
        self.pixels.set(idx, c);
        proof {
            assert forall|i: int, j: int|
                old(self).in_bounds(i, j) && !(i == x && j == y) implies final(self).pix(i, j)
                == old(self).pix(i, j) by {
                lemma_rowmajor_index(self.spec_width(), self.spec_height(), i, j);
                lemma_rowmajor_distinct(self.spec_width(), i, j, x as int, y as int);
            }
        }
    }

    /// Paint every pixel of rectangle `r` with colour `c`; pixels outside `r`
    /// keep their colour.
    pub fn fill_rect(&mut self, r: Rect, c: u16)
        requires
            old(self).wf(),
            r.fits(old(self).spec_width(), old(self).spec_height()),
        ensures
            final(self).wf(),
            old(self).same_dims(*final(self)),
            forall|i: int, j: int|
                old(self).in_bounds(i, j) ==> final(self).pix(i, j) == (if rect_contains(r, i, j) {
                    c
                } else {
                    old(self).pix(i, j)
                }),
    {
        let mut dy: usize = 0;
        while dy < r.h
            invariant
                old(self).wf(),
                r.fits(old(self).spec_width(), old(self).spec_height()),
                self.wf(),
                old(self).same_dims(*self),
                dy <= r.h,
                forall|i: int, j: int|
                    old(self).in_bounds(i, j) ==> self.pix(i, j) == (if rect_contains(r, i, j) && j
                        < r.y + dy {
                        c
                    } else {
                        old(self).pix(i, j)
                    }),
            decreases r.h - dy,
        {
            let mut dx: usize = 0;
            while dx < r.w
                invariant
                    old(self).wf(),
                    r.fits(old(self).spec_width(), old(self).spec_height()),
                    self.wf(),
                    old(self).same_dims(*self),
                    dy < r.h,
                    dx <= r.w,
                    forall|i: int, j: int|
                        old(self).in_bounds(i, j) ==> self.pix(i, j) == (if rect_contains(r, i, j)
                            && (j < r.y + dy || (j == r.y + dy && i < r.x + dx)) {
                            c
                        } else {
                            old(self).pix(i, j)
                        }),
                decreases r.w - dx,
            {
                self.set_pixel(r.x + dx, r.y + dy, c);
                dx = dx + 1;
            }
            dy = dy + 1;
            proof {
                assert forall|i: int, j: int|
                    old(self).in_bounds(i, j) implies self.pix(i, j) == (if rect_contains(r, i, j)
                    && j < r.y + dy {
                    c
                } else {
                    old(self).pix(i, j)
                }) by {
                    assert(rect_contains(r, i, j) ==> i < r.x + r.w);
                    assert(rect_contains(r, i, j) ==> r.y <= j);
                }
            }
        }
    }

    /// Paint the filled disc whose bounding square has its top-left corner at
    /// `(cx, cy)` and side `d`; every pixel off the disc keeps its colour.
    pub fn fill_disc(&mut self, cx: usize, cy: usize, d: usize, c: u16)
        requires
            old(self).wf(),
            cx + d <= old(self).spec_width(),
            cy + d <= old(self).spec_height(),
        ensures
            final(self).wf(),
            old(self).same_dims(*final(self)),
            forall|i: int, j: int|
                old(self).in_bounds(i, j) ==> final(self).pix(i, j) == (if disc_contains(
                    cx as int,
                    cy as int,
                    d as int,
                    i,
                    j,
                ) {
                    c
                } else {
                    old(self).pix(i, j)
                }),
    {
        let mut dy: usize = 0;
        while dy < d
            invariant
                old(self).wf(),
                cx + d <= old(self).spec_width(),
                cy + d <= old(self).spec_height(),
                self.wf(),
                old(self).same_dims(*self),
                dy <= d,
                forall|i: int, j: int|
                    old(self).in_bounds(i, j) ==> self.pix(i, j) == (if disc_contains(
                        cx as int,
                        cy as int,
                        d as int,
                        i,
                        j,
                    ) && cy <= j < cy + dy {
                        c
                    } else {
                        old(self).pix(i, j)
                    }),
            decreases d - dy,
        {
            let mut dx: usize = 0;
            while dx < d
                invariant
                    old(self).wf(),
                    cx + d <= old(self).spec_width(),
                    cy + d <= old(self).spec_height(),
                    self.wf(),
                    old(self).same_dims(*self),
                    dy < d,
                    dx <= d,
                    forall|i: int, j: int|
                        old(self).in_bounds(i, j) ==> self.pix(i, j) == (if disc_contains(
                            cx as int,
                            cy as int,
                            d as int,
                            i,
                            j,
                        ) && (cy <= j < cy + dy || (j == cy + dy && cx <= i < cx + dx)) {
                            c
                        } else {
                            old(self).pix(i, j)
                        }),
                decreases d - dx,
            {
                if disc_hit(cx, cy, d, cx + dx, cy + dy) {
                    self.set_pixel(cx + dx, cy + dy, c);
                }
                dx = dx + 1;
            }
            proof {
                assert forall|i: int, j: int|
                    old(self).in_bounds(i, j) implies self.pix(i, j) == (if disc_contains(
                    cx as int,
                    cy as int,
                    d as int,
                    i,
                    j,
                ) && cy <= j < cy + dy + 1 {
                    c
                } else {
                    old(self).pix(i, j)
                }) by {
                    if disc_contains(cx as int, cy as int, d as int, i, j) {
                        crate::geometry::lemma_disc_in_box(cx as int, cy as int, d as int, i, j);
                    }
                }
            }
            dy = dy + 1;
        }
        proof {
            assert forall|i: int, j: int|
                old(self).in_bounds(i, j) implies final(self).pix(i, j) == (if disc_contains(
                cx as int,
                cy as int,
                d as int,
                i,
                j,
            ) {
                c
            } else {
                old(self).pix(i, j)
            }) by {
                if disc_contains(cx as int, cy as int, d as int, i, j) {
                    crate::geometry::lemma_disc_in_box(cx as int, cy as int, d as int, i, j);
                }
            }
        }
    }
}

/// Whether text whose first glyph cell sits at `(tx, ty)` lights pixel
/// `(x, y)`: the pixel falls in cell `k` of the text and the glyph for byte
/// `k` is lit at the pixel's offset within that cell.
pub open spec fn text_hit(tx: int, ty: int, text: Seq<u8>, x: int, y: int) -> bool {
    let dx = x - tx;
    let dy = y - ty;
    &&& 0 <= dx
    &&& 0 <= dy
    &&& dx / 6 < text.len()
    &&& glyph_on(text[dx / 6], dx % 6, dy)
}

/// The colour a text-region redraw leaves at an in-region pixel: the
/// foreground colour on lit glyph pixels of the new text, the background
/// colour everywhere else. It depends only on the region, the text and the
/// two colours, never on the previous pixel state.
pub open spec fn region_pixel(r: Rect, text: Seq<u8>, bg: u16, fg: u16, x: int, y: int) -> u16 {
    if text_hit(r.x + TEXT_INSET, r.y + TEXT_INSET, text, x, y) {
        fg
    } else {
        bg
    }
}

/// How a text-region redraw relates the surface before it to the surface
/// after it: dimensions are kept, every pixel outside the region's clear
/// rectangle is bit-for-bit unchanged, and every pixel inside it shows
/// exactly the freshly painted content.
pub open spec fn text_redrawn(
    pre: Surface,
    post: Surface,
    r: Rect,
    text: Seq<u8>,
    bg: u16,
    fg: u16,
) -> bool {
    &&& post.wf()
    &&& pre.same_dims(post)
    &&& forall|x: int, y: int|
        pre.in_bounds(x, y) && !rect_contains(r, x, y) ==> post.pix(x, y) == pre.pix(x, y)
    &&& forall|x: int, y: int|
        pre.in_bounds(x, y) && rect_contains(r, x, y) ==> post.pix(x, y) == region_pixel(
            r,
            text,
            bg,
            fg,
            x,
            y,
        )
}

/// The colour a colour-region redraw leaves at an in-region pixel: lit glyph
/// pixels of the text win, then the filled indicator disc, then the
/// background.
pub open spec fn color_region_pixel(
    r: Rect,
    disc_color: u16,
    text: Seq<u8>,
    bg: u16,
    fg: u16,
    x: int,
    y: int,
) -> u16 {
    if text_hit(r.x + 3 * TEXT_INSET, r.y + TEXT_INSET, text, x, y) {
        fg
    } else if disc_contains(r.x + TEXT_INSET, r.y as int, TEXT_INSET as int, x, y) {
        disc_color
    } else {
        bg
    }
}

/// The before/after relation of a colour-region redraw, the analogue of
/// `text_redrawn` for the region that shows both a text line and a filled
/// disc in the sensed colour.
pub open spec fn color_redrawn(
    pre: Surface,
    post: Surface,
    r: Rect,
    disc_color: u16,
    text: Seq<u8>,
    bg: u16,
    fg: u16,
) -> bool {
    &&& post.wf()
    &&& pre.same_dims(post)
    &&& forall|x: int, y: int|
        pre.in_bounds(x, y) && !rect_contains(r, x, y) ==> post.pix(x, y) == pre.pix(x, y)
    &&& forall|x: int, y: int|
        pre.in_bounds(x, y) && rect_contains(r, x, y) ==> post.pix(x, y) == color_region_pixel(
            r,
            disc_color,
            text,
            bg,
            fg,
            x,
            y,
        )
}

impl Surface {
    /// Paint the lit pixels of one glyph with colour `fg`, its cell's
    /// top-left corner at `(gx, gy)`, skipping pixels at or beyond the
    /// clipping limits; every other pixel keeps its colour.
    fn draw_glyph_clipped(&mut self, gx: usize, gy: usize, ch: u8, fg: u16, lim_x: usize, lim_y: usize)
        requires
            old(self).wf(),
            lim_x <= old(self).spec_width(),
            lim_y <= old(self).spec_height(),
            gx <= 16384,
            gy <= 16384,
        ensures
            final(self).wf(),
            old(self).same_dims(*final(self)),
            forall|i: int, j: int|
                old(self).in_bounds(i, j) ==> final(self).pix(i, j) == (if glyph_on(
                    ch,
                    i - gx,
                    j - gy,
                ) && i < lim_x && j < lim_y {
                    fg
                } else {
                    old(self).pix(i, j)
                }),
    {
        let mut dx: usize = 0;
        while dx < 5
            invariant
                old(self).wf(),
                lim_x <= old(self).spec_width(),
                lim_y <= old(self).spec_height(),
                gx <= 16384,
                gy <= 16384,
                self.wf(),
                old(self).same_dims(*self),
                dx <= 5,
                forall|i: int, j: int|
                    old(self).in_bounds(i, j) ==> self.pix(i, j) == (if glyph_on(ch, i - gx, j - gy)
                        && i < lim_x && j < lim_y && i - gx < dx {
                        fg
                    } else {
                        old(self).pix(i, j)
                    }),
            decreases 5 - dx,
        {
            let mut dy: usize = 0;
            while dy < 7
                invariant
                    old(self).wf(),
                    lim_x <= old(self).spec_width(),
                    lim_y <= old(self).spec_height(),
                    gx <= 16384,
                    gy <= 16384,
                    self.wf(),
                    old(self).same_dims(*self),
                    dx < 5,
                    dy <= 7,
                    forall|i: int, j: int|
                        old(self).in_bounds(i, j) ==> self.pix(i, j) == (if glyph_on(
                            ch,
                            i - gx,
                            j - gy,
                        ) && i < lim_x && j < lim_y && (i - gx < dx || (i - gx == dx && j - gy
                            < dy)) {
                            fg
                        } else {
                            old(self).pix(i, j)
                        }),
                decreases 7 - dy,
            {
                if gx + dx < lim_x && gy + dy < lim_y {
                    if glyph_lit(ch, dx, dy) {
                        self.set_pixel(gx + dx, gy + dy, fg);
                    }
                }
                dy = dy + 1;
            }
            dx = dx + 1;
        }
    }

    /// Paint a text line with colour `fg`, its first glyph cell at
    /// `(tx, ty)`, clipped at the given limits; every unlit pixel keeps its
    /// colour.
    fn draw_text_clipped(
        &mut self,
        tx: usize,
        ty: usize,
        text: &Vec<u8>,
        fg: u16,
        lim_x: usize,
        lim_y: usize,
    )
        requires
            old(self).wf(),
            lim_x <= old(self).spec_width(),
            lim_y <= old(self).spec_height(),
            tx <= 8192,
            ty <= 8192,
            text.len() <= 256,
        ensures
            final(self).wf(),
            old(self).same_dims(*final(self)),
            forall|i: int, j: int|
                old(self).in_bounds(i, j) ==> final(self).pix(i, j) == (if text_hit(
                    tx as int,
                    ty as int,
                    text@,
                    i,
                    j,
                ) && i < lim_x && j < lim_y {
                    fg
                } else {
                    old(self).pix(i, j)
                }),
    {
        let mut k: usize = 0;
        while k < text.len()
            invariant
                old(self).wf(),
                lim_x <= old(self).spec_width(),
                lim_y <= old(self).spec_height(),
                tx <= 8192,
                ty <= 8192,
                text.len() <= 256,
                self.wf(),
                old(self).same_dims(*self),
                k <= text.len(),
                forall|i: int, j: int|
                    old(self).in_bounds(i, j) ==> self.pix(i, j) == (if text_hit(
                        tx as int,
                        ty as int,
                        text@.take(k as int),
                        i,
                        j,
                    ) && i < lim_x && j < lim_y {
                        fg
                    } else {
                        old(self).pix(i, j)
                    }),
            decreases text.len() - k,
        {
            let ch = text[k];
            self.draw_glyph_clipped(tx + k * 6, ty, ch, fg, lim_x, lim_y);
            proof {
                let tseq = text@;
                let kk = k as int;
                assert forall|i: int, j: int|
                    old(self).in_bounds(i, j) implies self.pix(i, j) == (if text_hit(
                    tx as int,
                    ty as int,
                    tseq.take(kk + 1),
                    i,
                    j,
                ) && i < lim_x && j < lim_y {
                    fg
                } else {
                    old(self).pix(i, j)
                }) by {
                    let dxx = i - tx;
                    if 0 <= dxx {
                        vstd::arithmetic::div_mod::lemma_fundamental_div_mod(dxx, 6);
                        vstd::arithmetic::div_mod::lemma_mod_bound(dxx, 6);
                        if 6 * kk <= dxx < 6 * kk + 6 {
                            vstd::arithmetic::div_mod::lemma_fundamental_div_mod_converse(
                                dxx,
                                6,
                                kk,
                                dxx - 6 * kk,
                            );
                        }
                    }
                    assert(tseq.take(kk + 1)[kk] == tseq[kk]);
                    assert(forall|m: int| 0 <= m < kk ==> tseq.take(kk + 1)[m] == tseq.take(kk)[m]);
                }
            }
            k = k + 1;
        }
        proof {
            assert(text@.take(text.len() as int) =~= text@);
        }
    }

    /// Redraw a text region: paint the region's clear rectangle in the
    /// background colour, then paint the text inside it. Pixels outside the
    /// clear rectangle are never affected.
    pub fn redraw_text_region(&mut self, r: Rect, text: &Vec<u8>, bg: u16, fg: u16)
        requires
            old(self).wf(),
            r.fits(old(self).spec_width(), old(self).spec_height()),
            text.len() <= 256,
        ensures
            text_redrawn(*old(self), *final(self), r, text@, bg, fg),
    {
        self.fill_rect(r, bg);
        self.draw_text_clipped(r.x + TEXT_INSET, r.y + TEXT_INSET, text, fg, r.x + r.w, r.y + r.h);
        proof {
            assert forall|x: int, y: int|
                old(self).in_bounds(x, y) && !rect_contains(r, x, y) implies self.pix(x, y) == old(self).pix(x, y) by {
                assert(text_hit(r.x + TEXT_INSET as int, r.y + TEXT_INSET as int, text@, x, y)
                    ==> x >= r.x + TEXT_INSET && y >= r.y + TEXT_INSET);
            }
        }
    }

    /// Redraw the colour region: paint the clear rectangle in the background
    /// colour, fill the indicator disc with the sensed colour, then paint the
    /// text beside it. Pixels outside the clear rectangle are never affected.
    pub fn redraw_color_region(&mut self, r: Rect, disc_color: u16, text: &Vec<u8>, bg: u16, fg: u16)
        requires
            old(self).wf(),
            r.fits(old(self).spec_width(), old(self).spec_height()),
            r.w >= 2 * TEXT_INSET,
            r.h >= TEXT_INSET,
            text.len() <= 256,
        ensures
            color_redrawn(*old(self), *final(self), r, disc_color, text@, bg, fg),
    {
        self.fill_rect(r, bg);
        self.fill_disc(r.x + TEXT_INSET, r.y, TEXT_INSET, disc_color);
        self.draw_text_clipped(
            r.x + 3 * TEXT_INSET,
            r.y + TEXT_INSET,
            text,
            fg,
            r.x + r.w,
            r.y + r.h,
        );
        proof {
            let dcx = r.x + TEXT_INSET as int;
            let dcy = r.y as int;
            let dd = TEXT_INSET as int;
            assert forall|x: int, y: int|
                old(self).in_bounds(x, y) && !rect_contains(r, x, y) implies self.pix(x, y) == old(self).pix(x, y) by {
                if disc_contains(dcx, dcy, dd, x, y) {
                    crate::geometry::lemma_disc_in_box(dcx, dcy, dd, x, y);
                }
            }
            assert forall|x: int, y: int|
                old(self).in_bounds(x, y) && rect_contains(r, x, y) implies self.pix(x, y)
                == color_region_pixel(r, disc_color, text@, bg, fg, x, y) by {
                if disc_contains(dcx, dcy, dd, x, y) {
                    crate::geometry::lemma_disc_in_box(dcx, dcy, dd, x, y);
                }
            }
        }
    }
}

/// Performing the same text-region redraw twice with identical content
/// produces the same final pixel state as performing it once: the second
/// redraw changes nothing.
pub proof fn lemma_text_redraw_idempotent(
    s0: Surface,
    s1: Surface,
    s2: Surface,
    r: Rect,
    text: Seq<u8>,
    bg: u16,
    fg: u16,
)
    requires
        text_redrawn(s0, s1, r, text, bg, fg),
        text_redrawn(s1, s2, r, text, bg, fg),
    ensures
        forall|x: int, y: int| s1.in_bounds(x, y) ==> s2.pix(x, y) == s1.pix(x, y),
{
    assert forall|x: int, y: int| s1.in_bounds(x, y) implies s2.pix(x, y) == s1.pix(x, y) by {
        assert(s0.in_bounds(x, y));
    }
}

/// Performing the same colour-region redraw twice with identical content
/// produces the same final pixel state as performing it once.
pub proof fn lemma_color_redraw_idempotent(
    s0: Surface,
    s1: Surface,
    s2: Surface,
    r: Rect,
    disc_color: u16,
    text: Seq<u8>,
    bg: u16,
    fg: u16,
)
    requires
        color_redrawn(s0, s1, r, disc_color, text, bg, fg),
        color_redrawn(s1, s2, r, disc_color, text, bg, fg),
    ensures
        forall|x: int, y: int| s1.in_bounds(x, y) ==> s2.pix(x, y) == s1.pix(x, y),
{
    assert forall|x: int, y: int| s1.in_bounds(x, y) implies s2.pix(x, y) == s1.pix(x, y) by {
        assert(s0.in_bounds(x, y));
    }
}

/// A redraw never bleeds: whatever the content drawn, every pixel outside
/// the region's clear rectangle is bit-for-bit unchanged.
pub proof fn lemma_redraw_no_bleed(
    pre: Surface,
    post: Surface,
    r: Rect,
    text: Seq<u8>,
    bg: u16,
    fg: u16,
    x: int,
    y: int,
)
    requires
        text_redrawn(pre, post, r, text, bg, fg),
        pre.in_bounds(x, y),
        !rect_contains(r, x, y),
    ensures
        post.pix(x, y) == pre.pix(x, y),
{
}

/// A colour-region redraw never bleeds either: pixels outside the region's
/// clear rectangle are bit-for-bit unchanged.
pub proof fn lemma_color_redraw_no_bleed(
    pre: Surface,
    post: Surface,
    r: Rect,
    disc_color: u16,
    text: Seq<u8>,
    bg: u16,
    fg: u16,
    x: int,
    y: int,
)
    requires
        color_redrawn(pre, post, r, disc_color, text, bg, fg),
        pre.in_bounds(x, y),
        !rect_contains(r, x, y),
    ensures
        post.pix(x, y) == pre.pix(x, y),
{
}

} // verus!
