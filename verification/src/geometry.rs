//! Integer geometry of a frame: the size of the bloom targets and where the
//! text bitmap sits inside the window.
use vstd::prelude::*;

verus! {

/// Side length of the reduced-resolution bloom target for a window side of `win` pixels:
/// a quarter of the window side, but never less than one pixel.
pub open spec fn bloom_extent_spec(win: u32) -> u32 {
    if win / 4 >= 1 { win / 4 } else { 1 }
}

/// The value that `x as i32` has: the bit pattern of `x` read as a two's complement number.
pub open spec fn wrap_i32(x: u32) -> int {
    if x <= i32::MAX { x as int } else { x as int - 0x1_0000_0000 }
}

/// Integer division by two that rounds toward zero, as Rust's `/` does on signed integers.
pub open spec fn half_toward_zero(d: int) -> int {
    if d >= 0 { d / 2 } else { -((-d) / 2) }
}

/// Offset that centres a span of `text` pixels in a span of `win` pixels, computed the
/// way the renderer does it: both sides reinterpreted as `i32`, their difference halved.
pub open spec fn centered_offset_spec(win: u32, text: u32) -> int {
    half_toward_zero(wrap_i32(win) - wrap_i32(text))
}

/// Computes the side of the bloom target for one window side.
pub fn bloom_extent(win: u32) -> (r: u32)
    ensures
        r == bloom_extent_spec(win),
{
    let q = win / 4;
    if q >= 1 {
        q
    } else {
        1
    }
}

/// Reinterprets a `u32` as an `i32`, as `as` does.
pub fn to_i32_wrapping(x: u32) -> (r: i32)
    ensures
        r as int == wrap_i32(x),
{
    let r = x as i32;
    assert(x <= 0x7fff_ffffu32 ==> r == x) by (bit_vector)
        requires r == x as i32;
    assert(x > 0x7fff_ffffu32 ==> r as int == x as int - 0x1_0000_0000) by (bit_vector)
        requires r == x as i32;
    r
}

/// Whether the difference of the two sides, each read as an `i32`, fits an `i32`, so
/// that `centered_offset` can be computed without overflow.
pub fn offset_fits(win: u32, text: u32) -> (r: bool)
    ensures
        r == (i32::MIN <= wrap_i32(win) - wrap_i32(text) <= i32::MAX),
{
    let d = to_i32_wrapping(win) as i64 - to_i32_wrapping(text) as i64;
    i32::MIN as i64 <= d && d <= i32::MAX as i64
}

/// Offset at which a span of `text` pixels starts so that it is centred in `win` pixels.
/// The difference of the two sides, each read as an `i32`, must not overflow `i32`.
pub fn centered_offset(win: u32, text: u32) -> (r: i32)
    requires
        i32::MIN <= wrap_i32(win) - wrap_i32(text) <= i32::MAX,
    ensures
        r as int == centered_offset_spec(win, text),
{
    let w = to_i32_wrapping(win);
    let t = to_i32_wrapping(text);
    let d = w as i64 - t as i64;
    if d >= 0 {
        (d / 2) as i32
    } else {
        (-((-d) / 2)) as i32
    }
}

/// The bloom target side is at least one pixel, at most the window side when the window
/// has any extent, and four times it covers all of the window side but for under four
/// pixels.
pub proof fn lemma_bloom_extent_bounds(win: u32)
    ensures
        1 <= bloom_extent_spec(win),
        win >= 1 ==> bloom_extent_spec(win) <= win,
        win >= 4 ==> 4 * bloom_extent_spec(win) <= win < 4 * bloom_extent_spec(win) + 4,
        win < 8 ==> bloom_extent_spec(win) == 1,
{
}

/// A span that fits the window is centred in it: it starts at or after the window's
/// start, ends at or before its end, and the margins on its two sides differ by at
/// most one pixel.
pub proof fn lemma_centered_span_fits(win: u32, text: u32)
    requires
        win <= i32::MAX,
        text <= win,
    ensures
        0 <= centered_offset_spec(win, text),
        centered_offset_spec(win, text) + text <= win,
        0 <= (win - (centered_offset_spec(win, text) + text)) - centered_offset_spec(win, text) <= 1,
{
}

/// Reading a `u32` as an `i32` keeps its value modulo 2^32 and gives a value in the
/// `i32` range; the values up to `i32::MAX` are kept as they are.
pub proof fn lemma_wrap_is_twos_complement(x: u32)
    ensures
        i32::MIN <= wrap_i32(x) <= i32::MAX,
        (x - wrap_i32(x)) % 0x1_0000_0000 == 0,
        x <= i32::MAX ==> wrap_i32(x) == x,
{
}

/// Whatever the two sides, the centring offset is their difference (each read as an
/// `i32`) halved toward zero: twice the offset is the difference itself or one nearer
/// zero, and has the difference's sign.
pub proof fn lemma_centered_offset_halves(win: u32, text: u32)
    ensures
        ({
            let d = wrap_i32(win) - wrap_i32(text);
            let o = centered_offset_spec(win, text);
            &&& (d >= 0 ==> 0 <= o && 0 <= d - 2 * o <= 1)
            &&& (d < 0 ==> o <= 0 && -1 <= d - 2 * o <= 0)
        }),
{
}

} // verus!
