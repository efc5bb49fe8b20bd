//! A pixel surface for a software rasterizer that writes 16-bit 5-6-5 colors
//! into a borrowed framebuffer, clipping every paint operation to the display.
pub mod brush;
pub mod color;
pub mod controller;
pub mod geometry;
pub mod pixel;
pub mod surface;
