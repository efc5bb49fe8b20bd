//! A line-addressable pixel surface over borrowed framebuffer memory.
use vstd::prelude::*;
use i_slint_core::software_renderer::Rgb565Pixel;
use vstd::arithmetic::div_mod::lemma_fundamental_div_mod;
use crate::brush::Brush;
use crate::color::rgb24_to_rgb565;
use crate::geometry::{
    DISPLAY_HEIGHT, DISPLAY_WIDTH, Region, RectangleArgs, TextureArgs, clip_end, clip_fits,
    clip_start_i32, clip_start_isize, in_rect, lemma_offset, rect_fits, span_end, span_start,
};

verus! {

broadcast use vstd::slice::group_slice_axioms;

/// A mutable view of framebuffer memory, read by the renderer line by line.
pub struct Dma2DBuffer<'a> {
    data: &'a mut [Rgb565Pixel],
    pixel_stride: usize,
}

/// `pixels` with every pixel whose column is in `[left, right)` and whose row is in
/// `[top, bottom)` replaced by `colour`.
pub open spec fn fill_rect_spec(
    pixels: Seq<Rgb565Pixel>,
    left: int,
    right: int,
    top: int,
    bottom: int,
    colour: u16,
) -> Seq<Rgb565Pixel> {
    Seq::new(
        pixels.len(),
        |i: int|
            if in_rect(i, left, right, top, bottom) {
                Rgb565Pixel(colour)
            } else {
                pixels[i]
            },
    )
}

/// `pixels` after painting `colour` over the rectangle with origin `(x, y)` and size
/// `w` by `h`, clipped to the display.
pub open spec fn paint_spec(
    pixels: Seq<Rgb565Pixel>,
    x: int,
    y: int,
    w: int,
    h: int,
    colour: u16,
) -> Seq<Rgb565Pixel> {
    fill_rect_spec(
        pixels,
        span_start(x),
        span_end(x, w, DISPLAY_WIDTH as int),
        span_start(y),
        span_end(y, h, DISPLAY_HEIGHT as int),
        colour,
    )
}

/// Painting a region that lies past the display's right or bottom edge, or that
/// is empty, writes no pixel.
pub proof fn lemma_paint_off_display(pixels: Seq<Rgb565Pixel>, x: int, y: int, w: int, h: int, colour: u16)
    requires
        w >= 0,
        h >= 0,
        x >= DISPLAY_WIDTH || y >= DISPLAY_HEIGHT || w == 0 || h == 0,
    ensures
        paint_spec(pixels, x, y, w, h, colour) == pixels,
{
    assert(paint_spec(pixels, x, y, w, h, colour) =~= pixels);
}

/// Painting writes `colour` at every pixel of the region that lies on the display,
/// and leaves every other pixel as it was. A region that starts left of the display
/// is painted from column zero with its full width, so this is stated of regions
/// that start at or right of the left edge, reach the right edge, or paint nothing;
/// and likewise along the rows.
pub proof fn lemma_paint_writes_intersection(
    pixels: Seq<Rgb565Pixel>,
    x: int,
    y: int,
    w: int,
    h: int,
    colour: u16,
)
    requires
        w >= 0,
        h >= 0,
        x >= 0 || x + w >= DISPLAY_WIDTH || w == 0 || y >= DISPLAY_HEIGHT || h == 0,
        y >= 0 || y + h >= DISPLAY_HEIGHT || h == 0 || x >= DISPLAY_WIDTH || w == 0,
    ensures
        forall|i: int|
            #![trigger paint_spec(pixels, x, y, w, h, colour)[i]]
            0 <= i < pixels.len() ==> {
                let col = i % (DISPLAY_WIDTH as int);
                let row = i / (DISPLAY_WIDTH as int);
                paint_spec(pixels, x, y, w, h, colour)[i] == if x <= col < x + w && y <= row < y + h
                    && row < DISPLAY_HEIGHT {
                    Rgb565Pixel(colour)
                } else {
                    pixels[i]
                }
            },
{
    assert forall|i: int| 0 <= i < pixels.len() implies {
        let col = i % (DISPLAY_WIDTH as int);
        let row = i / (DISPLAY_WIDTH as int);
        #[trigger] paint_spec(pixels, x, y, w, h, colour)[i] == if x <= col < x + w && y <= row
            < y + h && row < DISPLAY_HEIGHT {
            Rgb565Pixel(colour)
        } else {
            pixels[i]
        }
    } by {
        lemma_fundamental_div_mod(i, DISPLAY_WIDTH as int);
    }
}

impl<'a> Dma2DBuffer<'a> {
    /// The pixels of the borrowed memory, in address order.
    pub closed spec fn pixels(&self) -> Seq<Rgb565Pixel> {
        self.data@
    }

    /// The number of pixels from the start of one line to the start of the next.
    pub closed spec fn stride(&self) -> nat {
        self.pixel_stride as nat
    }

    /// The stride is positive and the memory holds a whole number of lines.
    pub open spec fn wf(&self) -> bool {
        &&& self.stride() > 0
        &&& self.pixels().len() % self.stride() == 0
    }

    /// The number of whole lines the memory holds.
    pub open spec fn num_lines_spec(&self) -> nat {
        self.pixels().len() / self.stride()
    }

    /// Wraps `data`, read as lines of `pixel_stride` pixels.
    pub fn new(data: &'a mut [Rgb565Pixel], pixel_stride: usize) -> (s: Self)
        requires
            pixel_stride > 0,
            data@.len() % (pixel_stride as nat) == 0,
        ensures
            s.wf(),
            s.pixels() == old(data)@,
            s.stride() == pixel_stride,
    {
        Dma2DBuffer { data, pixel_stride }
    }

    /// The number of lines: the memory's length divided by the stride.
    pub fn num_lines(&self) -> (n: usize)
        requires
            self.wf(),
        ensures
            n == self.num_lines_spec(),
    {
        self.data.len() / self.pixel_stride
    }

    /// The `line_number`-th line: the `stride` pixels from offset `line_number * stride`.
    /// What the caller writes into it lands in this surface's memory.
    pub fn line_slice(&mut self, line_number: usize) -> (line: &mut [Rgb565Pixel])
        requires
            old(self).wf(),
            line_number < old(self).num_lines_spec(),
        ensures
            line@ == old(self).pixels().subrange(
                line_number * old(self).stride(),
                (line_number + 1) * old(self).stride(),
            ),
            final(self).stride() == old(self).stride(),
            final(self).pixels() == old(self).pixels().subrange(0, line_number * old(self).stride())
                + final(line)@ + old(self).pixels().subrange(
                (line_number + 1) * old(self).stride(),
                old(self).pixels().len() as int,
            ),
    {
        let stride = self.pixel_stride;
        let ghost len = self.data@.len() as int;
        let n: usize = self.data.len();
        assert(len == n);
        assert(line_number * stride + stride <= len && (line_number + 1) * stride == line_number * stride + stride) by (nonlinear_arith)
            requires
                stride > 0,
                len >= 0,
                line_number < len / (stride as int),
        {
            lemma_fundamental_div_mod(len, stride as int);
        }
        let offset: usize = line_number * stride;
        let (_, rest) = self.data.split_at_mut(offset);
        let (line, _) = rest.split_at_mut(stride);
        line
    }

    /// Writes `colour` at offset `col + row * DISPLAY_WIDTH` for every column in
    /// `[left, right)` and every row in `[top, bottom)`, column by column.
    fn fill_rect(&mut self, left: usize, right: usize, top: usize, bottom: usize, colour: u16)
        requires
            right <= DISPLAY_WIDTH,
            rect_fits(old(self).data@.len() as int, left as int, right as int, top as int, bottom as int),
        ensures
            final(self).pixel_stride == old(self).pixel_stride,
            final(self).data@ == fill_rect_spec(
                old(self).data@,
                left as int,
                right as int,
                top as int,
                bottom as int,
                colour,
            ),
    {
        let ghost before = self.data@;
        let ghost len = before.len() as int;
        let n: usize = self.data.len();
        assert(len == n);
        if right <= left || bottom <= top {
            assert(self.data@ =~= fill_rect_spec(before, left as int, right as int, top as int, bottom as int, colour));
            return;
        }
        let mut x: usize = left;
        while x < right
            invariant
                left <= x <= right,
                top < bottom,
                right <= DISPLAY_WIDTH,
                (bottom - 1) * DISPLAY_WIDTH + right <= len,
                self.pixel_stride == old(self).pixel_stride,
                before == old(self).data@,
                len == before.len(),
                len <= usize::MAX,
                self.data@ == fill_rect_spec(before, left as int, x as int, top as int, bottom as int, colour),
            decreases right - x,
        {
            let mut y: usize = top;
            while y < bottom
                invariant
                    left <= x < right,
                    top <= y <= bottom,
                    right <= DISPLAY_WIDTH,
                    (bottom - 1) * DISPLAY_WIDTH + right <= len,
                    self.pixel_stride == old(self).pixel_stride,
                    len == before.len(),
                    self.data@.len() == len,
                    len <= usize::MAX,
                    forall|i: int|
                        0 <= i < len ==> #[trigger] self.data@[i] == if in_rect(i, left as int, x as int, top as int, bottom as int)
                            || in_rect(i, x as int, x + 1, top as int, y as int) {
                            Rgb565Pixel(colour)
                        } else {
                            before[i]
                        },
                decreases bottom - y,
            {
                assert(x + y * DISPLAY_WIDTH < len) by (nonlinear_arith)
                    requires
                        x < right,
                        y < bottom,
                        (bottom - 1) * DISPLAY_WIDTH + right <= len,
                ;
                let idx: usize = x + y * DISPLAY_WIDTH;
                let ghost prev = self.data@;
                self.data[idx] = Rgb565Pixel(colour);
                assert forall|i: int| 0 <= i < len implies #[trigger] self.data@[i] == if in_rect(i, left as int, x as int, top as int, bottom as int)
                    || in_rect(i, x as int, x + 1, top as int, y + 1) {
                    Rgb565Pixel(colour)
                } else {
                    before[i]
                } by {
                    lemma_offset(i, x as int, y as int);
                    assert(prev[i] == if in_rect(i, left as int, x as int, top as int, bottom as int)
                        || in_rect(i, x as int, x + 1, top as int, y as int) {
                        Rgb565Pixel(colour)
                    } else {
                        before[i]
                    });
                }
                y = y + 1;
            }
            x = x + 1;
            assert(self.data@ =~= fill_rect_spec(before, left as int, x as int, top as int, bottom as int, colour));
        }
    }

    /// Fills `region`, clipped to the display, with the brush's solid color.
    pub fn fill_background(&mut self, brush: &Brush, region: &Region) -> (handled: bool)
        requires
            brush.is_solid(),
            clip_fits(
                old(self).pixels().len() as int,
                region.x as int,
                region.y as int,
                region.width as int,
                region.height as int,
            ),
        ensures
            handled,
            final(self).stride() == old(self).stride(),
            final(self).pixels() == paint_spec(
                old(self).pixels(),
                region.x as int,
                region.y as int,
                region.width as int,
                region.height as int,
                brush.packed(),
            ),
    {
        let colour = brush.solid_rgb565();
        let left = clip_start_i32(region.x);
        let right = clip_end(left, region.width as usize, DISPLAY_WIDTH);
        let top = clip_start_i32(region.y);
        let bottom = clip_end(top, region.height as usize, DISPLAY_HEIGHT);
        self.fill_rect(left, right, top, bottom, colour);
        true
    }

    /// Fills the rectangle of `rect_args`, clipped to the display, with its
    /// background brush's solid color. The clip region is not consulted.
    pub fn draw_rectangle(&mut self, rect_args: &RectangleArgs, _clip: &Region) -> (handled: bool)
        requires
            rect_args.background.is_solid(),
            clip_fits(
                old(self).pixels().len() as int,
                rect_args.x as int,
                rect_args.y as int,
                rect_args.width as int,
                rect_args.height as int,
            ),
        ensures
            handled,
            final(self).stride() == old(self).stride(),
            final(self).pixels() == paint_spec(
                old(self).pixels(),
                rect_args.x as int,
                rect_args.y as int,
                rect_args.width as int,
                rect_args.height as int,
                rect_args.background.packed(),
            ),
    {
        let colour = rect_args.background.solid_rgb565();
        let left = clip_start_i32(rect_args.x);
        let right = clip_end(left, rect_args.width as usize, DISPLAY_WIDTH);
        let top = clip_start_i32(rect_args.y);
        let bottom = clip_end(top, rect_args.height as usize, DISPLAY_HEIGHT);
        self.fill_rect(left, right, top, bottom, colour);
        true
    }

    /// Paints the destination rectangle of `texture`, clipped to the display,
    /// black. The texture itself is not sampled and the clip region is not consulted.
    pub fn draw_texture(&mut self, texture: &TextureArgs, _clip: &Region) -> (handled: bool)
        requires
            clip_fits(
                old(self).pixels().len() as int,
                texture.dst_x as int,
                texture.dst_y as int,
                texture.dst_width as int,
                texture.dst_height as int,
            ),
        ensures
            handled,
            final(self).stride() == old(self).stride(),
            final(self).pixels() == paint_spec(
                old(self).pixels(),
                texture.dst_x as int,
                texture.dst_y as int,
                texture.dst_width as int,
                texture.dst_height as int,
                0,
            ),
    {
        let colour = rgb24_to_rgb565(0, 0, 0);
        assert(colour == 0) by (bit_vector)
            requires
                colour >> 11u16 == (0u8 >> 3u8) as u16,
                (colour >> 5u16) & 0x3fu16 == (0u8 >> 2u8) as u16,
                colour & 0x1fu16 == (0u8 >> 3u8) as u16,
        ;
        let left = clip_start_isize(texture.dst_x);
        let right = clip_end(left, texture.dst_width, DISPLAY_WIDTH);
        let top = clip_start_isize(texture.dst_y);
        let bottom = clip_end(top, texture.dst_height, DISPLAY_HEIGHT);
        self.fill_rect(left, right, top, bottom, colour);
        true
    }
}

} // verus!
