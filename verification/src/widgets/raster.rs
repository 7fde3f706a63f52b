//! Pixel rasterization shared by the Braille-canvas widgets (graph, line
//! chart): Bresenham lines, a sub-pixel canvas, and the packing of a cell's
//! 2×4 sub-pixels into one Braille glyph.

use vstd::prelude::*;

verus! {

/// Absolute value.
pub open spec fn iabs(v: int) -> int {
    if v < 0 {
        -v
    } else {
        v
    }
}

/// The unit step from `a` toward `b` (`-1` when `b <= a`).
pub open spec fn toward(a: int, b: int) -> int {
    if a < b {
        1
    } else {
        -1
    }
}

/// Bresenham's error term at the point `(x, y)` of the line from `(x0, y0)`
/// to `(x1, y1)`, in closed form: with `dx`, `dy` the extents and `a`, `b`
/// the steps already taken along each axis, `dx·(1+b) − dy·(1+a)`.
pub open spec fn line_err(x0: int, y0: int, x1: int, y1: int, x: int, y: int) -> int {
    let dx = iabs(x1 - x0);
    let dy = iabs(y1 - y0);
    dx * (1 + iabs(y - y0)) - dy * (1 + iabs(x - x0))
}

/// The point after `(x, y)` on Bresenham's line from `(x0, y0)` to
/// `(x1, y1)`: step along x when twice the error exceeds `−dy`, along y when
/// it is below `dx` (both decisions taken on the same error).
pub open spec fn line_next(x0: int, y0: int, x1: int, y1: int, x: int, y: int) -> (int, int) {
    let e2 = 2 * line_err(x0, y0, x1, y1, x, y);
    let dx = iabs(x1 - x0);
    let dy = iabs(y1 - y0);
    (
        if e2 > -dy { x + toward(x0, x1) } else { x },
        if e2 < dx { y + toward(y0, y1) } else { y },
    )
}

/// Whether point `k + 1` of `pts` follows point `k` on Bresenham's line from
/// `(x0, y0)` to `(x1, y1)`, point `k` not being the line's end yet.
pub open spec fn linked(pts: Seq<(i64, i64)>, x0: int, y0: int, x1: int, y1: int, k: int) -> bool {
    &&& !(pts[k].0 == x1 && pts[k].1 == y1)
    &&& (pts[k + 1].0 as int, pts[k + 1].1 as int) == line_next(
        x0,
        y0,
        x1,
        y1,
        pts[k].0 as int,
        pts[k].1 as int,
    )
}

/// Whether `pts` is Bresenham's line from `(x0, y0)` to `(x1, y1)`: it starts
/// at the first endpoint, every point but the last is followed by its
/// [`line_next`] and differs from the second endpoint, and it ends there.
pub open spec fn is_line(pts: Seq<(i64, i64)>, x0: int, y0: int, x1: int, y1: int) -> bool {
    &&& pts.len() >= 1
    &&& pts[0].0 == x0 && pts[0].1 == y0
    &&& pts.last().0 == x1 && pts.last().1 == y1
    &&& forall|k: int| 0 <= k < pts.len() - 1 ==> #[trigger] linked(pts, x0, y0, x1, y1, k)
}

/// The number of points of the line from `(x0, y0)` to `(x1, y1)`: one per
/// cell along its longer extent, both endpoints included.
pub open spec fn line_len(x0: int, y0: int, x1: int, y1: int) -> int {
    let dx = iabs(x1 - x0);
    let dy = iabs(y1 - y0);
    (if dx >= dy { dx } else { dy }) + 1
}

/// Lines whose extents are below 2^61 cells (so that twice the error term
/// fits an `i64`).
pub open spec fn line_in_range(x0: int, y0: int, x1: int, y1: int) -> bool {
    iabs(x1 - x0) < 0x2000_0000_0000_0000 && iabs(y1 - y0) < 0x2000_0000_0000_0000
}

proof fn lemma_err_step(dx: int, dy: int, a: int, b: int, sa: int, sb: int) by (nonlinear_arith)
    requires
        sa == 0 || sa == 1,
        sb == 0 || sb == 1,
    ensures
        dx * (1 + (b + sb)) - dy * (1 + (a + sa)) == dx * (1 + b) - dy * (1 + a) + sb * dx - sa * dy,
{
}

proof fn lemma_no_x_overshoot(dx: int, dy: int, b: int) by (nonlinear_arith)
    requires
        0 <= b < dy,
        0 <= dx,
    ensures
        2 * (dx * (1 + b) - dy * (1 + dx)) <= -dy,
{
    assert(dx * (1 + b) <= dx * dy);
}

proof fn lemma_no_y_overshoot(dx: int, dy: int, a: int) by (nonlinear_arith)
    requires
        0 <= a < dx,
        0 <= dy,
    ensures
        2 * (dx * (1 + dy) - dy * (1 + a)) >= dx,
{
    assert(dy * (1 + a) <= dy * dx);
}

/// Bresenham's line between two pixel endpoints, both included.
pub fn line_points(x0: i64, y0: i64, x1: i64, y1: i64) -> (pts: Vec<(i64, i64)>)
    requires
        line_in_range(x0 as int, y0 as int, x1 as int, y1 as int),
    ensures
        is_line(pts@, x0 as int, y0 as int, x1 as int, y1 as int),
        pts@.len() == line_len(x0 as int, y0 as int, x1 as int, y1 as int),
{
    let dx: i64 = if x1 >= x0 { x1 - x0 } else { x0 - x1 };
    let dy: i64 = if y1 >= y0 { y1 - y0 } else { y0 - y1 };
    let sx: i64 = if x0 < x1 { 1 } else { -1 };
    let sy: i64 = if y0 < y1 { 1 } else { -1 };
    let mut err: i64 = dx - dy;
    let mut x: i64 = x0;
    let mut y: i64 = y0;
    let mut pts: Vec<(i64, i64)> = Vec::new();
    let ghost mut a: int = 0;
    let ghost mut b: int = 0;
    assert(dx * (1 + 0int) - dy * (1 + 0int) == dx - dy) by (nonlinear_arith);
    loop
        invariant_except_break
            0 <= a <= dx,
            0 <= b <= dy,
            sx == 1 ==> x == x0 + a,
            sx == -1 ==> x == x0 - a,
            sy == 1 ==> y == y0 + b,
            sy == -1 ==> y == y0 - b,
            err == dx * (1 + b) - dy * (1 + a),
            -3 * dy - 2 < 2 * err < 3 * dx + 2,
            pts@.len() >= 1 ==> pts@[0].0 == x0 && pts@[0].1 == y0,
            pts@.len() == 0 ==> x == x0 && y == y0,
            pts@.len() >= 1 ==> line_next(x0 as int, y0 as int, x1 as int, y1 as int, pts@.last().0 as int, pts@.last().1 as int) == (x as int, y as int),
            pts@.len() >= 1 ==> !(pts@.last().0 == x1 && pts@.last().1 == y1),
            forall|k: int|
                0 <= k < pts@.len() - 1 ==> #[trigger] linked(pts@, x0 as int, y0 as int, x1 as int, y1 as int, k),
            dx >= dy ==> (2 * err > -dy || dx == 0) && (dx == dy ==> err == 0) && a == pts@.len(),
            dy >= dx ==> (2 * err < dx || dy == 0) && (dx == dy ==> err == 0) && b == pts@.len(),
        invariant
            dx == iabs(x1 - x0),
            dy == iabs(y1 - y0),
            sx == toward(x0 as int, x1 as int),
            sy == toward(y0 as int, y1 as int),
            dx < 0x2000_0000_0000_0000,
            dy < 0x2000_0000_0000_0000,
        ensures
            is_line(pts@, x0 as int, y0 as int, x1 as int, y1 as int),
            pts@.len() == line_len(x0 as int, y0 as int, x1 as int, y1 as int),
        decreases (dx - a) + (dy - b),
    {
        let ghost old_pts = pts@;
        pts.push((x, y));
        proof {
            assert(pts@.last() == (x, y));
            assert(pts@[0].0 == x0 && pts@[0].1 == y0);
            assert forall|k: int| 0 <= k < pts@.len() - 1 implies #[trigger] linked(pts@, x0 as int, y0 as int, x1 as int, y1 as int, k) by {
                if k < old_pts.len() - 1 {
                    assert(linked(old_pts, x0 as int, y0 as int, x1 as int, y1 as int, k));
                    assert(pts@[k] == old_pts[k]);
                    assert(pts@[k + 1] == old_pts[k + 1]);
                } else {
                    assert(pts@[k] == old_pts.last());
                    assert(pts@[k + 1] == (x, y));
                }
            }
        }
        if x == x1 && y == y1 {
            assert(a == dx && b == dy);
            break;
        }
        proof {
            assert(line_err(x0 as int, y0 as int, x1 as int, y1 as int, x as int, y as int) == err) by {
                assert(iabs(x - x0) == a);
                assert(iabs(y - y0) == b);
            }
            if a == dx && b < dy {
                lemma_no_x_overshoot(dx as int, dy as int, b);
            }
            if b == dy && a < dx {
                lemma_no_y_overshoot(dx as int, dy as int, a);
            }
        }
        let e2: i64 = 2 * err;
        let ghost sa: int = if e2 > -dy { 1 } else { 0 };
        let ghost sb: int = if e2 < dx { 1 } else { 0 };
        if e2 > -dy {
            err -= dy;
            x += sx;
        }
        if e2 < dx {
            err += dx;
            y += sy;
        }
        proof {
            lemma_err_step(dx as int, dy as int, a, b, sa, sb);
            a = a + sa;
            b = b + sb;
        }
    }
    pts
}

/// Consecutive points of a line are neighbours: each coordinate moves by at
/// most one cell per step.
pub proof fn lemma_line_steps_adjacent(pts: Seq<(i64, i64)>, x0: int, y0: int, x1: int, y1: int)
    requires
        is_line(pts, x0, y0, x1, y1),
    ensures
        forall|k: int|
            0 <= k < pts.len() - 1 ==> iabs(#[trigger] pts[k + 1].0 - pts[k].0) <= 1 && iabs(
                pts[k + 1].1 - pts[k].1,
            ) <= 1,
{
    assert forall|k: int| 0 <= k < pts.len() - 1 implies iabs(#[trigger] pts[k + 1].0 - pts[k].0) <= 1 && iabs(
        pts[k + 1].1 - pts[k].1,
    ) <= 1 by {
        assert(linked(pts, x0, y0, x1, y1, k));
    }
}

/// Every step moves on: along each axis a point stays or moves one cell in
/// the direction of the end point, and no point repeats the one before it.
pub proof fn lemma_line_steps_forward(pts: Seq<(i64, i64)>, x0: int, y0: int, x1: int, y1: int)
    requires
        is_line(pts, x0, y0, x1, y1),
    ensures
        forall|k: int|
            0 <= k < pts.len() - 1 ==> {
                let dxk = #[trigger] pts[k + 1].0 - pts[k].0;
                let dyk = pts[k + 1].1 - pts[k].1;
                &&& (dxk == 0 || dxk == toward(x0, x1))
                &&& (dyk == 0 || dyk == toward(y0, y1))
                &&& (dxk != 0 || dyk != 0)
            },
{
    assert forall|k: int| 0 <= k < pts.len() - 1 implies {
        let dxk = #[trigger] pts[k + 1].0 - pts[k].0;
        let dyk = pts[k + 1].1 - pts[k].1;
        &&& (dxk == 0 || dxk == toward(x0, x1))
        &&& (dyk == 0 || dyk == toward(y0, y1))
        &&& (dxk != 0 || dyk != 0)
    } by {
        assert(linked(pts, x0, y0, x1, y1, k));
        if iabs(x1 - x0) == 0 && iabs(y1 - y0) == 0 {
            assert(linked(pts, x0, y0, x1, y1, 0));
        }
    }
}

/// A Braille sub-pixel canvas: every terminal cell holds 2 × 4 pixels.
#[derive(Debug, Clone)]
pub struct BrailleCanvas {
    cols: u16,
    rows: u16,
    lit: Vec<bool>,
}

/// `char::from_u32`.
///
/// Trusted: gives the char with that code point when the value is a Unicode
/// scalar value (outside the surrogate range, at most `0x10FFFF`), `None`
/// otherwise, as std documents.
#[verifier::external_body]
fn char_from_code(code: u32) -> (r: Option<char>)
    ensures
        (code < 0xD800 || (0xE000 <= code <= 0x10FFFF)) ==> r == Some(code as char),
        !(code < 0xD800 || (0xE000 <= code <= 0x10FFFF)) ==> r is None,
{
    char::from_u32(code)
}

/// The Braille glyph whose dot bitmap is `bits`: code point `0x2800 + bits`.
pub fn braille(bits: u8) -> (c: char)
    ensures
        c as u32 == 0x2800 + bits,
{
    match char_from_code(0x2800 + bits as u32) {
        Some(c) => c,
        None => ' ',
    }
}

impl BrailleCanvas {
    /// Width in cells.
    pub closed spec fn cols_value(&self) -> u16 {
        self.cols
    }

    /// Height in cells.
    pub closed spec fn rows_value(&self) -> u16 {
        self.rows
    }

    /// Width in pixels (two per cell).
    pub open spec fn pixel_width(&self) -> int {
        2 * self.cols_value()
    }

    /// Height in pixels (four per cell).
    pub open spec fn pixel_height(&self) -> int {
        4 * self.rows_value()
    }

    /// The pixel grid holds one flag per pixel.
    pub closed spec fn wf(&self) -> bool {
        self.lit@.len() == self.pixel_width() * self.pixel_height()
    }

    /// Whether pixel `(x, y)` is inside the canvas.
    pub open spec fn in_canvas(&self, x: int, y: int) -> bool {
        0 <= x < self.pixel_width() && 0 <= y < self.pixel_height()
    }

    /// Whether pixel `(x, y)` is lit (pixels outside the canvas never are).
    pub closed spec fn lit_at(&self, x: int, y: int) -> bool {
        self.in_canvas(x, y) && self.lit@[y * self.pixel_width() + x]
    }

    /// The Braille dot bitmap of cell `(col, row)`: the weights of its lit
    /// sub-pixels.
    pub open spec fn cell_bits_of(&self, col: int, row: int) -> int {
        (if self.lit_at(2 * col, 4 * row) { 1int } else { 0 })
        + (if self.lit_at(2 * col + 1, 4 * row) { 2int } else { 0 })
        + (if self.lit_at(2 * col, 4 * row + 1) { 4int } else { 0 })
        + (if self.lit_at(2 * col + 1, 4 * row + 1) { 8int } else { 0 })
        + (if self.lit_at(2 * col, 4 * row + 2) { 16int } else { 0 })
        + (if self.lit_at(2 * col + 1, 4 * row + 2) { 32int } else { 0 })
        + (if self.lit_at(2 * col, 4 * row + 3) { 64int } else { 0 })
        + (if self.lit_at(2 * col + 1, 4 * row + 3) { 128int } else { 0 })
    }

    proof fn lemma_index(&self, x: int, y: int)
        requires
            self.in_canvas(x, y),
        ensures
            0 <= y * self.pixel_width() + x < self.pixel_width() * self.pixel_height(),
    {
        assert(y * self.pixel_width() + x < (y + 1) * self.pixel_width()) by (nonlinear_arith)
            requires
                x < self.pixel_width(),
        ;
        assert((y + 1) * self.pixel_width() <= self.pixel_height() * self.pixel_width())
            by (nonlinear_arith)
            requires
                y + 1 <= self.pixel_height(),
                0 <= self.pixel_width(),
        ;
        assert(0 <= y * self.pixel_width()) by (nonlinear_arith)
            requires
                0 <= y,
                0 <= self.pixel_width(),
        ;
        assert(self.pixel_height() * self.pixel_width() == self.pixel_width() * self.pixel_height())
            by (nonlinear_arith);
    }

    /// A canvas of `cols × rows` cells with every pixel dark.
    pub fn new(cols: u16, rows: u16) -> (c: BrailleCanvas)
        requires
            8 * cols * rows <= usize::MAX,
        ensures
            c.wf(),
            c.cols_value() == cols,
            c.rows_value() == rows,
            forall|x: int, y: int| !c.lit_at(x, y),
    {
        assert((2 * cols as usize) * (4 * rows as usize) == 8 * cols * rows) by (nonlinear_arith);
        let n: usize = (2 * cols as usize) * (4 * rows as usize);
        let mut lit: Vec<bool> = Vec::new();
        let mut i: usize = 0;
        while i < n
            invariant
                i <= n,
                lit@.len() == i,
                forall|j: int| 0 <= j < i ==> !lit@[j],
            decreases n - i,
        {
            lit.push(false);
            i = i + 1;
        }
        let c = BrailleCanvas { cols, rows, lit };
        assert(c.lit@.len() == c.pixel_width() * c.pixel_height()) by (nonlinear_arith)
            requires
                c.lit@.len() == 8 * cols * rows,
                c.pixel_width() == 2 * cols,
                c.pixel_height() == 4 * rows,
        ;
        assert forall|x: int, y: int| !c.lit_at(x, y) by {
            if c.in_canvas(x, y) {
                c.lemma_index(x, y);
            }
        }
        c
    }

    /// Width in cells.
    pub fn cols(&self) -> (n: u16)
        ensures
            n == self.cols_value(),
    {
        self.cols
    }

    /// Height in cells.
    pub fn rows(&self) -> (n: u16)
        ensures
            n == self.rows_value(),
    {
        self.rows
    }

    /// Light pixel `(x, y)`; a pixel outside the canvas is ignored.
    pub fn set(&mut self, x: i64, y: i64)
        requires
            old(self).wf(),
        ensures
            final(self).wf(),
            final(self).cols_value() == old(self).cols_value(),
            final(self).rows_value() == old(self).rows_value(),
            forall|px: int, py: int|
                #[trigger] final(self).lit_at(px, py) == (old(self).lit_at(px, py) || (px == x
                    && py == y && old(self).in_canvas(px, py))),
    {
        let pw: usize = 2 * self.cols as usize;
        let ph: usize = 4 * self.rows as usize;
        if x >= 0 && y >= 0 && (x as u64) < (pw as u64) && (y as u64) < (ph as u64) {
            proof {
                self.lemma_index(x as int, y as int);
                assert(self.lit@.len() == self.lit.len());
                assert(0 <= (y as int) * pw <= (y as int) * pw + x) by (nonlinear_arith)
                    requires 0 <= y, 0 <= x, 0 <= pw;
            }
            let xu = x as usize;
            let yu = y as usize;
            let idx = yu * pw + xu;
            self.lit.set(idx, true);
            proof {
                assert forall|px: int, py: int|
                    #[trigger] self.lit_at(px, py) == (old(self).lit_at(px, py) || (px == x
                        && py == y && old(self).in_canvas(px, py))) by {
                    if self.in_canvas(px, py) {
                        old(self).lemma_index(px, py);
                        if py * self.pixel_width() + px == idx {
                            assert(px == x && py == y) by (nonlinear_arith)
                                requires
                                    py * self.pixel_width() + px == y * self.pixel_width() + x,
                                    0 <= px < self.pixel_width(),
                                    0 <= x < self.pixel_width(),
                            ;
                        }
                    }
                }
            }
        }
    }

    /// Light every in-canvas point of `pts`.
    pub fn plot(&mut self, pts: &Vec<(i64, i64)>)
        requires
            old(self).wf(),
        ensures
            final(self).wf(),
            final(self).cols_value() == old(self).cols_value(),
            final(self).rows_value() == old(self).rows_value(),
            forall|px: int, py: int|
                #[trigger] final(self).lit_at(px, py) == (old(self).lit_at(px, py) || (
                old(self).in_canvas(px, py) && exists|k: int|
                    0 <= k < pts@.len() && pts@[k].0 == px && pts@[k].1 == py)),
    {
        let mut i: usize = 0;
        while i < pts.len()
            invariant
                i <= pts@.len(),
                self.wf(),
                self.cols_value() == old(self).cols_value(),
                self.rows_value() == old(self).rows_value(),
                forall|px: int, py: int|
                    #[trigger] self.lit_at(px, py) == (old(self).lit_at(px, py) || (
                    old(self).in_canvas(px, py) && exists|k: int|
                        0 <= k < i && pts@[k].0 == px && pts@[k].1 == py)),
            decreases pts@.len() - i,
        {
            let (x, y) = pts[i];
            let ghost before = *self;
            self.set(x, y);
            proof {
                assert forall|px: int, py: int|
                    #[trigger] self.lit_at(px, py) == (old(self).lit_at(px, py) || (
                    old(self).in_canvas(px, py) && exists|k: int|
                        0 <= k < i + 1 && pts@[k].0 == px && pts@[k].1 == py)) by {
                    assert(before.lit_at(px, py) == (old(self).lit_at(px, py) || (
                    old(self).in_canvas(px, py) && exists|k: int|
                        0 <= k < i && pts@[k].0 == px && pts@[k].1 == py)));
                    if px == x && py == y && old(self).in_canvas(px, py) {
                        assert(pts@[i as int].0 == px && pts@[i as int].1 == py);
                    }
                    if exists|k: int| 0 <= k < i + 1 && pts@[k].0 == px && pts@[k].1 == py {
                        let k = choose|k: int| 0 <= k < i + 1 && pts@[k].0 == px && pts@[k].1 == py;
                        if k == i {
                        } else {
                            assert(0 <= k < i && pts@[k].0 == px && pts@[k].1 == py);
                        }
                    }
                }
            }
            i = i + 1;
        }
    }

    fn get(&self, x: u32, y: u32) -> (b: bool)
        requires
            self.wf(),
            self.in_canvas(x as int, y as int),
        ensures
            b == self.lit_at(x as int, y as int),
    {
        let pw: usize = 2 * self.cols as usize;
        proof {
            self.lemma_index(x as int, y as int);
            assert(self.lit@.len() == self.lit.len());
            assert(0 <= (y as int) * pw <= (y as int) * pw + x) by (nonlinear_arith)
                requires 0 <= y, 0 <= x, 0 <= pw;
        }
        self.lit[y as usize * pw + x as usize]
    }

    /// The Braille dot bitmap of cell `(col, row)`.
    pub fn cell_bits(&self, col: u16, row: u16) -> (bits: u8)
        requires
            self.wf(),
            col < self.cols_value(),
            row < self.rows_value(),
        ensures
            bits == self.cell_bits_of(col as int, row as int),
    {
        let x: u32 = 2 * col as u32;
        let y: u32 = 4 * row as u32;
        let mut bits: u8 = 0;
        if self.get(x, y) {
            bits = bits + 1;
        }
        if self.get(x + 1, y) {
            bits = bits + 2;
        }
        if self.get(x, y + 1) {
            bits = bits + 4;
        }
        if self.get(x + 1, y + 1) {
            bits = bits + 8;
        }
        if self.get(x, y + 2) {
            bits = bits + 16;
        }
        if self.get(x + 1, y + 2) {
            bits = bits + 32;
        }
        if self.get(x, y + 3) {
            bits = bits + 64;
        }
        if self.get(x + 1, y + 3) {
            bits = bits + 128;
        }
        bits
    }
}

} // verus!
