//! Display bounds, draw regions and the clipping rule shared by all paint operations.
use vstd::prelude::*;
use vstd::arithmetic::div_mod::{lemma_fundamental_div_mod, lemma_fundamental_div_mod_converse};

use crate::brush::Brush;

verus! {

/// Width of the display in pixels.
pub const DISPLAY_WIDTH: usize = 480;

/// Height of the display in pixels.
pub const DISPLAY_HEIGHT: usize = 272;

/// An axis-aligned rectangle in display coordinates, not necessarily on the display.
#[derive(Clone, Copy, Debug, PartialEq, Eq)]
pub struct Region {
    pub x: i32,
    pub y: i32,
    pub width: u32,
    pub height: u32,
}

/// The geometry of a filled rectangle and the brush that fills it.
#[derive(Clone, Copy, Debug, PartialEq, Eq)]
pub struct RectangleArgs {
    pub x: i32,
    pub y: i32,
    pub width: u32,
    pub height: u32,
    pub background: Brush,
}

/// Where a texture is drawn. The surface does not sample textures, so the
/// source image is not part of what it is given.
#[derive(Clone, Copy, Debug, PartialEq, Eq)]
pub struct TextureArgs {
    pub dst_x: isize,
    pub dst_y: isize,
    pub dst_width: usize,
    pub dst_height: usize,
}

/// First coordinate painted along one axis: the origin, raised to zero.
pub open spec fn span_start(origin: int) -> int {
    if origin < 0 {
        0
    } else {
        origin
    }
}

/// End (exclusive) of the painted coordinates along one axis: the clipped start
/// plus the extent, lowered to the display bound.
pub open spec fn span_end(origin: int, extent: int, bound: int) -> int {
    if span_start(origin) + extent < bound {
        span_start(origin) + extent
    } else {
        bound
    }
}

/// Whether the pixel at linear offset `i` (row-major, `DISPLAY_WIDTH` pixels to a row)
/// has its column in `[left, right)` and its row in `[top, bottom)`.
pub open spec fn in_rect(i: int, left: int, right: int, top: int, bottom: int) -> bool {
    &&& left <= i % (DISPLAY_WIDTH as int) < right
    &&& top <= i / (DISPLAY_WIDTH as int) < bottom
}

/// Whether memory of `len` pixels holds every pixel of the rectangle with columns
/// `[left, right)` and rows `[top, bottom)` at its row-major offset.
pub open spec fn rect_fits(len: int, left: int, right: int, top: int, bottom: int) -> bool {
    right <= left || bottom <= top || (bottom - 1) * (DISPLAY_WIDTH as int) + right <= len
}

/// Whether memory of `len` pixels holds every pixel of the clipped rectangle with
/// origin `(x, y)` and size `w` by `h`.
pub open spec fn clip_fits(len: int, x: int, y: int, w: int, h: int) -> bool {
    rect_fits(
        len,
        span_start(x),
        span_end(x, w, DISPLAY_WIDTH as int),
        span_start(y),
        span_end(y, h, DISPLAY_HEIGHT as int),
    )
}

/// The row-major offset `col + row * DISPLAY_WIDTH` is the one offset whose
/// column is `col` and whose row is `row`.
pub proof fn lemma_offset(i: int, col: int, row: int)
    requires
        0 <= i,
        0 <= col < DISPLAY_WIDTH,
        0 <= row,
    ensures
        i == col + row * DISPLAY_WIDTH <==> (i % (DISPLAY_WIDTH as int) == col && i
            / (DISPLAY_WIDTH as int) == row),
{
    let w = DISPLAY_WIDTH as int;
    lemma_fundamental_div_mod(i, w);
    if i == col + row * w {
        lemma_fundamental_div_mod_converse(i, w, row, col);
    }
}

/// `min(bound, start + extent)`, computed without overflow.
pub fn clip_end(start: usize, extent: usize, bound: usize) -> (end: usize)
    ensures
        end == span_end(start as int, extent as int, bound as int),
{
    if start >= bound {
        bound
    } else if extent >= bound - start {
        bound
    } else {
        start + extent
    }
}

/// The coordinate `origin` raised to zero.
pub fn clip_start_i32(origin: i32) -> (start: usize)
    ensures
        start == span_start(origin as int),
{
    if origin < 0 {
        0
    } else {
        origin as usize
    }
}

/// The coordinate `origin` raised to zero.
pub fn clip_start_isize(origin: isize) -> (start: usize)
    ensures
        start == span_start(origin as int),
{
    if origin < 0 {
        0
    } else {
        origin as usize
    }
}

} // verus!
