//! The renderer's 16-bit pixel type, whose one field is the packed color.
use vstd::prelude::*;

verus! {

/// `Rgb565Pixel` of i-slint-core: a transparent wrapper of one public `u16`,
/// the packed 5-6-5 color. Its field is visible to proofs.
#[verifier::external_type_specification]
pub struct ExRgb565Pixel(i_slint_core::software_renderer::Rgb565Pixel);

} // verus!
