use dma2d_surface::brush::{Brush, Color};
use dma2d_surface::geometry::{Region, RectangleArgs, TextureArgs, DISPLAY_HEIGHT, DISPLAY_WIDTH};
use dma2d_surface::surface::Dma2DBuffer;
use i_slint_core::software_renderer::Rgb565Pixel;

const W: usize = DISPLAY_WIDTH;
const H: usize = DISPLAY_HEIGHT;

fn memory(fill: u16) -> Vec<Rgb565Pixel> {
    vec![Rgb565Pixel(fill); W * H]
}

fn solid(red: u8, green: u8, blue: u8) -> Brush {
    Brush::SolidColor(Color { red, green, blue })
}

fn at(mem: &[Rgb565Pixel], x: usize, y: usize) -> u16 {
    mem[x + y * W].0
}

fn written_box(mem: &[Rgb565Pixel], untouched: u16) -> Option<(usize, usize, usize, usize)> {
    let mut found: Option<(usize, usize, usize, usize)> = None;
    for y in 0..H {
        for x in 0..W {
            if at(mem, x, y) != untouched {
                found = Some(match found {
                    None => (x, x + 1, y, y + 1),
                    Some((l, r, t, b)) => (l.min(x), r.max(x + 1), t.min(y), b.max(y + 1)),
                });
            }
        }
    }
    found
}

#[test]
fn display_is_480_by_272() {
    assert_eq!(W, 480);
    assert_eq!(H, 272);
}

#[test]
fn fill_background_full_display_red() {
    let mut mem = memory(0x1234);
    {
        let mut buf = Dma2DBuffer::new(&mut mem, W);
        let region = Region { x: 0, y: 0, width: 480, height: 272 };
        assert!(buf.fill_background(&solid(255, 0, 0), &region));
    }
    assert!(mem.iter().all(|p| p.0 == 0xF800));
}

#[test]
fn rectangle_with_negative_origin_starts_at_zero() {
    let mut mem = memory(0xFFFF);
    {
        let mut buf = Dma2DBuffer::new(&mut mem, W);
        let args = RectangleArgs { x: -10, y: -10, width: 20, height: 20, background: solid(0, 0, 255) };
        let clip = Region { x: 0, y: 0, width: 480, height: 272 };
        assert!(buf.draw_rectangle(&args, &clip));
    }
    for y in 0..10 {
        for x in 0..10 {
            assert_eq!(at(&mem, x, y), 0x001F);
        }
    }
    // The clipped start is raised to zero and the width is counted from there.
    assert_eq!(written_box(&mem, 0xFFFF), Some((0, 20, 0, 20)));
}

#[test]
fn texture_paints_destination_black() {
    let mut mem = memory(0xFFFF);
    {
        let mut buf = Dma2DBuffer::new(&mut mem, W);
        let args = TextureArgs { dst_x: 100, dst_y: 50, dst_width: 30, dst_height: 30 };
        let clip = Region { x: 0, y: 0, width: 0, height: 0 };
        assert!(buf.draw_texture(&args, &clip));
    }
    for y in 50..80 {
        for x in 100..130 {
            assert_eq!(at(&mem, x, y), 0x0000);
        }
    }
    assert_eq!(written_box(&mem, 0xFFFF), Some((100, 130, 50, 80)));
    assert_eq!(mem.iter().filter(|p| p.0 == 0).count(), 30 * 30);
}

#[test]
fn texture_with_negative_destination_is_clipped() {
    let mut mem = memory(0xFFFF);
    {
        let mut buf = Dma2DBuffer::new(&mut mem, W);
        let args = TextureArgs { dst_x: -5, dst_y: 270, dst_width: 3, dst_height: 10 };
        assert!(buf.draw_texture(&args, &Region { x: 0, y: 0, width: 480, height: 272 }));
    }
    assert_eq!(written_box(&mem, 0xFFFF), Some((0, 3, 270, 272)));
}

#[test]
fn regions_past_the_edges_write_nothing() {
    let mut mem = memory(0xABCD);
    {
        let mut buf = Dma2DBuffer::new(&mut mem, W);
        let red = solid(255, 0, 0);
        assert!(buf.fill_background(&red, &Region { x: 480, y: 0, width: 50, height: 50 }));
        assert!(buf.fill_background(&red, &Region { x: 0, y: 272, width: 50, height: 50 }));
        assert!(buf.fill_background(&red, &Region { x: 10, y: 10, width: 0, height: 50 }));
        let args = RectangleArgs { x: 1000, y: 1000, width: 5, height: 5, background: red };
        assert!(buf.draw_rectangle(&args, &Region { x: 0, y: 0, width: 480, height: 272 }));
        let tex = TextureArgs { dst_x: 600, dst_y: 10, dst_width: 30, dst_height: 30 };
        assert!(buf.draw_texture(&tex, &Region { x: 0, y: 0, width: 480, height: 272 }));
    }
    assert!(mem.iter().all(|p| p.0 == 0xABCD));
}

#[test]
fn partially_outside_region_writes_intersection_only() {
    let mut mem = memory(0);
    {
        let mut buf = Dma2DBuffer::new(&mut mem, W);
        let region = Region { x: 470, y: 260, width: 20, height: 20 };
        assert!(buf.fill_background(&solid(255, 255, 255), &region));
    }
    assert_eq!(written_box(&mem, 0), Some((470, 480, 260, 272)));
    assert_eq!(mem.iter().filter(|p| p.0 == 0xFFFF).count(), 10 * 12);
}

#[test]
fn huge_extent_is_clipped_to_display() {
    let mut mem = memory(0);
    {
        let mut buf = Dma2DBuffer::new(&mut mem, W);
        let region = Region { x: 5, y: 7, width: u32::MAX, height: u32::MAX };
        assert!(buf.fill_background(&solid(0, 255, 0), &region));
    }
    assert_eq!(written_box(&mem, 0), Some((5, 480, 7, 272)));
    assert_eq!(at(&mem, 479, 271), 0x07E0);
}

#[test]
fn fill_uses_display_width_not_stride() {
    let stride = 2 * W;
    let mut mem = vec![Rgb565Pixel(0); stride * H];
    {
        let mut buf = Dma2DBuffer::new(&mut mem, stride);
        assert!(buf.fill_background(&solid(255, 0, 0), &Region { x: 1, y: 2, width: 1, height: 1 }));
    }
    assert_eq!(mem[1 + 2 * W].0, 0xF800);
    assert_eq!(mem.iter().filter(|p| p.0 != 0).count(), 1);
}

#[test]
fn number_of_lines_is_length_over_stride() {
    let mut mem = memory(0);
    assert_eq!(Dma2DBuffer::new(&mut mem, W).num_lines(), 272);
    assert_eq!(Dma2DBuffer::new(&mut mem, 2 * W).num_lines(), 136);
    assert_eq!(Dma2DBuffer::new(&mut mem, W * H).num_lines(), 1);
    let mut small = vec![Rgb565Pixel(0); 10];
    assert_eq!(Dma2DBuffer::new(&mut small, 5).num_lines(), 2);
    assert_eq!(Dma2DBuffer::new(&mut small, 1).num_lines(), 10);
    let mut empty: Vec<Rgb565Pixel> = Vec::new();
    assert_eq!(Dma2DBuffer::new(&mut empty, 4).num_lines(), 0);
}

#[test]
fn line_slice_addresses_by_stride() {
    let mut mem: Vec<Rgb565Pixel> = (0..12u16).map(Rgb565Pixel).collect();
    {
        let mut buf = Dma2DBuffer::new(&mut mem, 4);
        let line = buf.line_slice(1);
        assert_eq!(line.len(), 4);
        assert_eq!(line.iter().map(|p| p.0).collect::<Vec<u16>>(), vec![4, 5, 6, 7]);
        line[0] = Rgb565Pixel(100);
        line[3] = Rgb565Pixel(103);
        let last = buf.line_slice(2);
        assert_eq!(last[3].0, 11);
    }
    let values: Vec<u16> = mem.iter().map(|p| p.0).collect();
    assert_eq!(values, vec![0, 1, 2, 3, 100, 5, 6, 103, 8, 9, 10, 11]);
}

#[test]
fn solid_brush_packs_its_color() {
    assert_eq!(solid(255, 0, 0).solid_rgb565(), 0xF800);
    assert_eq!(solid(0x12, 0x34, 0x56).solid_rgb565(), 0x11AA);
}
