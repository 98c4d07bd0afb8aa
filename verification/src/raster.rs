//! The single-channel coverage bitmap that the text is drawn into before it is
//! uploaded as a texture, and the mapping from glyph pixels to bitmap cells.
use vstd::prelude::*;
use crate::geometry::{wrap_i32, centered_offset, centered_offset_spec};

verus! {

/// Where the text's bounding box lands in the bitmap: the box's top-left corner in
/// whole pixels (`min_x`, `min_y`) and the offsets that centre it in the window.
#[derive(Clone, Copy, Debug, PartialEq, Eq)]
pub struct TextPlacement {
    pub min_x: i32,
    pub min_y: i32,
    pub offset_x: i32,
    pub offset_y: i32,
}

/// The placement of a `text_w` by `text_h` box whose corner is at (`min_x`, `min_y`),
/// centred in a `win_w` by `win_h` window.
pub open spec fn placement_spec(win_w: u32, win_h: u32, text_w: u32, text_h: u32, min_x: i32, min_y: i32) -> TextPlacement {
    TextPlacement {
        min_x,
        min_y,
        offset_x: centered_offset_spec(win_w, text_w) as i32,
        offset_y: centered_offset_spec(win_h, text_h) as i32,
    }
}

/// Column in the bitmap of a glyph pixel whose absolute column is `ax`.
pub open spec fn column_of(p: TextPlacement, ax: int) -> int {
    (ax - p.min_x) + p.offset_x
}

/// Row in the bitmap of a glyph pixel whose absolute row is `ay`. Rows are counted from
/// the bottom of the bitmap, so the text is flipped upside down into texture order.
pub open spec fn row_of(height: u32, p: TextPlacement, ay: int) -> int {
    (wrap_i32(height) - 1) - ((ay - p.min_y) + p.offset_y)
}

/// The cell that a glyph pixel at (`ax`, `ay`) covers in a `width` by `height` bitmap,
/// or `None` where it falls outside the bitmap.
pub open spec fn target_cell(width: u32, height: u32, p: TextPlacement, ax: int, ay: int) -> Option<int> {
    let px = column_of(p, ax);
    let py = row_of(height, p, ay);
    if 0 <= px < wrap_i32(width) && 0 <= py < wrap_i32(height) {
        Some(px + py * width)
    } else {
        None
    }
}

/// What the renderer's `i32` arithmetic on a glyph pixel needs in order not to overflow.
pub open spec fn plot_in_range(height: u32, p: TextPlacement, ax: int, ay: int) -> bool {
    &&& i32::MIN <= ax - p.min_x <= i32::MAX
    &&& i32::MIN <= column_of(p, ax) <= i32::MAX
    &&& i32::MIN <= wrap_i32(height) - 1 <= i32::MAX
    &&& i32::MIN <= ay - p.min_y <= i32::MAX
    &&& i32::MIN <= (ay - p.min_y) + p.offset_y <= i32::MAX
    &&& i32::MIN <= row_of(height, p, ay) <= i32::MAX
}

/// The bitmap after a glyph pixel at (`ax`, `ay`) with the given coverage is drawn.
pub open spec fn plot_spec(pixels: Seq<u8>, width: u32, height: u32, p: TextPlacement, ax: int, ay: int, value: u8) -> Seq<u8> {
    match target_cell(width, height, p, ax, ay) {
        Some(i) => if i < pixels.len() { pixels.update(i, value) } else { pixels },
        None => pixels,
    }
}

impl TextPlacement {
    /// Centres a `text_w` by `text_h` box with corner (`min_x`, `min_y`) in the window.
    /// Each side's difference, read as `i32`, must not overflow.
    pub fn new(win_w: u32, win_h: u32, text_w: u32, text_h: u32, min_x: i32, min_y: i32) -> (r: Self)
        requires
            i32::MIN <= wrap_i32(win_w) - wrap_i32(text_w) <= i32::MAX,
            i32::MIN <= wrap_i32(win_h) - wrap_i32(text_h) <= i32::MAX,
        ensures
            r == placement_spec(win_w, win_h, text_w, text_h, min_x, min_y),
    {
        let offset_x = centered_offset(win_w, text_w);
        let offset_y = centered_offset(win_h, text_h);
        TextPlacement { min_x, min_y, offset_x, offset_y }
    }
}

/// Whether drawing a glyph pixel at (`ax`, `ay`) into a bitmap `height` pixels tall
/// stays within `i32` arithmetic.
pub fn plot_fits(height: u32, p: &TextPlacement, ax: i32, ay: i32) -> (r: bool)
    ensures
        r == plot_in_range(height, *p, ax as int, ay as int),
{
    let lo = i32::MIN as i64;
    let hi = i32::MAX as i64;
    let dx = ax as i64 - p.min_x as i64;
    let px = dx + p.offset_x as i64;
    let top = crate::geometry::to_i32_wrapping(height) as i64 - 1;
    let dy = ay as i64 - p.min_y as i64;
    let dyo = dy + p.offset_y as i64;
    let py = top - dyo;
    lo <= dx && dx <= hi && lo <= px && px <= hi && lo <= top && top <= hi
        && lo <= dy && dy <= hi && lo <= dyo && dyo <= hi && lo <= py && py <= hi
}

/// A `width` by `height` grid of coverage bytes, stored row after row.
pub struct CoverageCanvas {
    width: u32,
    height: u32,
    pixels: Vec<u8>,
}

impl View for CoverageCanvas {
    type V = Seq<u8>;

    closed spec fn view(&self) -> Seq<u8> {
        self.pixels@
    }
}

impl CoverageCanvas {
    /// The cells are exactly `width * height`, a count that fits a `u32`.
    #[verifier::type_invariant]
    spec fn wf(&self) -> bool {
        &&& self.width * self.height <= u32::MAX
        &&& self.pixels@.len() == self.width * self.height
    }

    /// Width of the bitmap in pixels.
    pub closed spec fn width_spec(&self) -> u32 {
        self.width
    }

    /// Height of the bitmap in pixels.
    pub closed spec fn height_spec(&self) -> u32 {
        self.height
    }

    /// An all-zero bitmap of the given size. The cell count must fit a `u32`.
    pub fn new(width: u32, height: u32) -> (r: Self)
        requires
            width * height <= u32::MAX,
        ensures
            r.width_spec() == width,
            r.height_spec() == height,
            r@ == Seq::new((width * height) as nat, |i: int| 0u8),
    {
        let n = width * height;
        let pixels: Vec<u8> = vec![0u8; n as usize];
        let r = CoverageCanvas { width, height, pixels };
        assert(r@ =~= Seq::new((width * height) as nat, |i: int| 0u8));
        r
    }

    /// Width of the bitmap in pixels.
    pub fn width(&self) -> (r: u32)
        ensures
            r == self.width_spec(),
    {
        self.width
    }

    /// Height of the bitmap in pixels.
    pub fn height(&self) -> (r: u32)
        ensures
            r == self.height_spec(),
    {
        self.height
    }

    /// The cells, row after row.
    pub fn as_bytes(&self) -> (r: &[u8])
        ensures
            r@ == self@,
            r@.len() == self.width_spec() * self.height_spec(),
    {
        proof { use_type_invariant(self); }
        self.pixels.as_slice()
    }

    /// Hands the cells over, row after row.
    pub fn into_bytes(self) -> (r: Vec<u8>)
        ensures
            r@ == self@,
            r@.len() == self.width_spec() * self.height_spec(),
    {
        proof { use_type_invariant(&self); }
        self.pixels
    }

    /// Draws one glyph pixel at absolute position (`ax`, `ay`) with coverage `value`:
    /// the pixel is moved by the placement, flipped vertically and written over the cell
    /// it lands on; a pixel outside the bitmap changes nothing.
    pub fn plot(&mut self, placement: &TextPlacement, ax: i32, ay: i32, value: u8)
        requires
            plot_in_range(old(self).height_spec(), *placement, ax as int, ay as int),
        ensures
            final(self).width_spec() == old(self).width_spec(),
            final(self).height_spec() == old(self).height_spec(),
            final(self)@ == plot_spec(old(self)@, old(self).width_spec(), old(self).height_spec(), *placement, ax as int, ay as int, value),
    {
        proof { use_type_invariant(&*self); }
        let w = crate::geometry::to_i32_wrapping(self.width);
        let h = crate::geometry::to_i32_wrapping(self.height);
        let px = (ax - placement.min_x) + placement.offset_x;
        let py = (h - 1) - ((ay - placement.min_y) + placement.offset_y);
        if px >= 0 && px < w && py >= 0 && py < h {
            proof {
                lemma_cell_below_size(px as int, py as int, self.width as int, self.height as int);
            }
            let idx = (px as u32 + py as u32 * self.width) as usize;
            if idx < self.pixels.len() {
                let mut taken = CoverageCanvas::new(0, 0);
                std::mem::swap(self, &mut taken);
                let CoverageCanvas { width, height, mut pixels } = taken;
                pixels.set(idx, value);
                *self = CoverageCanvas { width, height, pixels };
            }
        }
    }
}

/// A cell in row `py` and column `px` of a `w` by `h` grid lies before cell `w * h`.
proof fn lemma_cell_below_size(px: int, py: int, w: int, h: int)
    by (nonlinear_arith)
    requires
        0 <= px < w,
        0 <= py < h,
    ensures
        px + py * w < w * h,
{
    assert(py * w + w <= h * w);
}

/// Every glyph pixel lands inside the bitmap or nowhere: the cell it covers is one of
/// the `width * height` cells, at the column and row the placement gives it.
pub proof fn lemma_target_cell_inside(width: u32, height: u32, p: TextPlacement, ax: int, ay: int)
    ensures
        target_cell(width, height, p, ax, ay) matches Some(i) ==> {
            &&& 0 <= i < width * height
            &&& i % (width as int) == column_of(p, ax)
            &&& i / (width as int) == row_of(height, p, ay)
        },
{
    if let Some(i) = target_cell(width, height, p, ax, ay) {
        let px = column_of(p, ax);
        let py = row_of(height, p, ay);
        lemma_cell_below_size(px, py, width as int, height as int);
        vstd::arithmetic::div_mod::lemma_fundamental_div_mod_converse(i, width as int, py, px);
    }
}

/// Drawing the same glyph pixel twice with the same coverage leaves the bitmap as
/// drawing it once does.
pub proof fn lemma_plot_idempotent(pixels: Seq<u8>, width: u32, height: u32, p: TextPlacement, ax: int, ay: int, value: u8)
    ensures
        plot_spec(plot_spec(pixels, width, height, p, ax, ay, value), width, height, p, ax, ay, value)
            == plot_spec(pixels, width, height, p, ax, ay, value),
{
    if let Some(i) = target_cell(width, height, p, ax, ay) {
        if 0 <= i < pixels.len() {
            assert(pixels.update(i, value).update(i, value) =~= pixels.update(i, value));
        }
    }
}

/// A drawn pixel that lands in the bitmap can be read back from its cell, and no
/// other cell changes.
pub proof fn lemma_plot_reads_back(pixels: Seq<u8>, width: u32, height: u32, p: TextPlacement, ax: int, ay: int, value: u8)
    requires
        pixels.len() == width * height,
    ensures
        target_cell(width, height, p, ax, ay) matches Some(i) ==> plot_spec(pixels, width, height, p, ax, ay, value)[i] == value,
        forall|j: int| 0 <= j < pixels.len() && target_cell(width, height, p, ax, ay) != Some(j)
            ==> #[trigger] plot_spec(pixels, width, height, p, ax, ay, value)[j] == pixels[j],
        plot_spec(pixels, width, height, p, ax, ay, value).len() == pixels.len(),
{
    lemma_target_cell_inside(width, height, p, ax, ay);
}

/// Where a glyph pixel goes, in plain coordinates: a pixel `dx` columns right of and
/// `dy` rows below the text box's corner lands `offset_x + dx` cells from the left of
/// the bitmap, and `offset_y + dy` rows from its top, that is `height - 1 - offset_y -
/// dy` rows from its bottom, where the bitmap's rows start. It overwrites that one cell
/// with its coverage; a pixel outside the bitmap leaves it as it was.
pub proof fn lemma_plot_places_pixel(pixels: Seq<u8>, width: u32, height: u32, p: TextPlacement, dx: int, dy: int, value: u8)
    requires
        pixels.len() == width * height,
    ensures
        ({
            let col = p.offset_x + dx;
            let row = wrap_i32(height) - 1 - p.offset_y - dy;
            &&& (0 <= col < wrap_i32(width) && 0 <= row < wrap_i32(height)) ==> {
                &&& row < height
                &&& plot_spec(pixels, width, height, p, p.min_x + dx, p.min_y + dy, value)
                    == pixels.update(col + row * width, value)
            }
            &&& !(0 <= col < wrap_i32(width) && 0 <= row < wrap_i32(height)) ==>
                plot_spec(pixels, width, height, p, p.min_x + dx, p.min_y + dy, value) == pixels
        }),
{
    lemma_target_cell_inside(width, height, p, p.min_x + dx, p.min_y + dy);
}

/// The text box's corner lands in column `offset_x` and in row `height - 1 - offset_y`
/// counted from the bottom: the horizontal offset moves it across, the vertical offset
/// moves it down.
pub proof fn lemma_corner_cell(width: u32, height: u32, p: TextPlacement)
    requires
        0 <= p.offset_x < wrap_i32(width),
        0 <= wrap_i32(height) - 1 - p.offset_y < wrap_i32(height),
    ensures
        target_cell(width, height, p, p.min_x as int, p.min_y as int)
            == Some(p.offset_x + (height - 1 - p.offset_y) * width),
{
}

/// Neighbouring glyph pixels land in neighbouring cells: one column to the right is
/// the next cell of the same row, and one row further down the text is one row nearer
/// the bottom of the bitmap, `width` cells earlier.
pub proof fn lemma_neighbour_cells(width: u32, height: u32, p: TextPlacement, ax: int, ay: int)
    ensures
        target_cell(width, height, p, ax, ay) is Some && target_cell(width, height, p, ax + 1, ay) is Some
            ==> target_cell(width, height, p, ax + 1, ay).unwrap() == target_cell(width, height, p, ax, ay).unwrap() + 1,
        target_cell(width, height, p, ax, ay) is Some && target_cell(width, height, p, ax, ay + 1) is Some
            ==> target_cell(width, height, p, ax, ay + 1).unwrap() == target_cell(width, height, p, ax, ay).unwrap() - width,
{
    if target_cell(width, height, p, ax, ay) is Some && target_cell(width, height, p, ax, ay + 1) is Some {
        let py = (wrap_i32(height) - 1) - ((ay - p.min_y) + p.offset_y);
        assert(py * width - width == (py - 1) * width) by (nonlinear_arith);
    }
}

/// The horizontal offset only moves text across: two placements that differ in
/// `offset_x` alone put a pixel in the same row, as many cells apart as the offsets
/// differ; two that differ in `offset_y` alone put it in the same column, one row
/// apart per unit of difference.
pub proof fn lemma_offsets_are_independent(width: u32, height: u32, p: TextPlacement, q: TextPlacement, ax: int, ay: int)
    requires
        p.min_x == q.min_x,
        p.min_y == q.min_y,
    ensures
        p.offset_y == q.offset_y && target_cell(width, height, p, ax, ay) is Some && target_cell(width, height, q, ax, ay) is Some
            ==> target_cell(width, height, q, ax, ay).unwrap() - target_cell(width, height, p, ax, ay).unwrap() == q.offset_x - p.offset_x,
        p.offset_x == q.offset_x && target_cell(width, height, p, ax, ay) is Some && target_cell(width, height, q, ax, ay) is Some
            ==> target_cell(width, height, p, ax, ay).unwrap() - target_cell(width, height, q, ax, ay).unwrap() == (q.offset_y - p.offset_y) * width,
{
    if p.offset_x == q.offset_x && target_cell(width, height, p, ax, ay) is Some && target_cell(width, height, q, ax, ay) is Some {
        let pp = (wrap_i32(height) - 1) - ((ay - p.min_y) + p.offset_y);
        let qq = (wrap_i32(height) - 1) - ((ay - q.min_y) + q.offset_y);
        assert(pp * width - qq * width == (pp - qq) * width) by (nonlinear_arith);
    }
}

/// A placement centres each side: each offset is the difference of the window and
/// text sides (each read as an `i32`) halved toward zero, so twice the offset is that
/// difference or one nearer zero. When the text fits, its margins before and after
/// differ by at most one pixel.
pub proof fn lemma_placement_centres(win_w: u32, win_h: u32, text_w: u32, text_h: u32, min_x: i32, min_y: i32)
    requires
        i32::MIN <= wrap_i32(win_w) - wrap_i32(text_w) <= i32::MAX,
        i32::MIN <= wrap_i32(win_h) - wrap_i32(text_h) <= i32::MAX,
    ensures
        ({
            let r = placement_spec(win_w, win_h, text_w, text_h, min_x, min_y);
            let dw = wrap_i32(win_w) - wrap_i32(text_w);
            let dh = wrap_i32(win_h) - wrap_i32(text_h);
            &&& r.min_x == min_x && r.min_y == min_y
            &&& (dw >= 0 ==> 0 <= dw - 2 * r.offset_x <= 1)
            &&& (dw < 0 ==> -1 <= dw - 2 * r.offset_x <= 0)
            &&& (dh >= 0 ==> 0 <= dh - 2 * r.offset_y <= 1)
            &&& (dh < 0 ==> -1 <= dh - 2 * r.offset_y <= 0)
            &&& (win_w <= i32::MAX && text_w <= win_w) ==> {
                let before = r.offset_x as int;
                let after = win_w - text_w - r.offset_x;
                0 <= before && 0 <= after && (after == before || after == before + 1)
            }
            &&& (win_h <= i32::MAX && text_h <= win_h) ==> {
                let before = r.offset_y as int;
                let after = win_h - text_h - r.offset_y;
                0 <= before && 0 <= after && (after == before || after == before + 1)
            }
        }),
{
}

} // verus!
