//! Conversion of 24-bit RGB colors into the packed 5-6-5 pixel format.
use vstd::prelude::*;

verus! {

/// The packed 5-6-5 value of an 8-bit RGB triple: the top five bits of red in
/// bits 15 to 11, the top six bits of green in bits 10 to 5 and the top five
/// bits of blue in bits 4 to 0.
pub open spec fn rgb565(r: u8, g: u8, b: u8) -> u16 {
    (((r as u16) >> 3u16) << 11u16) | (((g as u16) >> 2u16) << 5u16) | ((b as u16) >> 3u16)
}

/// Packs an 8-bit RGB triple into 16 bits, truncating each channel.
pub fn rgb24_to_rgb565(r: u8, g: u8, b: u8) -> (c: u16)
    ensures
        c == rgb565(r, g, b),
        c >> 11u16 == (r >> 3u8) as u16,
        (c >> 5u16) & 0x3fu16 == (g >> 2u8) as u16,
        c & 0x1fu16 == (b >> 3u8) as u16,
{
    let r5: u16 = ((r as u16) >> 3u16) & 0x1f;
    let g6: u16 = ((g as u16) >> 2u16) & 0x3f;
    let b5: u16 = ((b as u16) >> 3u16) & 0x1f;
    proof {
        lemma_rgb565_fields(r, g, b);
        assert(((r as u16) >> 3u16) & 0x1f == (r as u16) >> 3u16) by (bit_vector);
        assert(((g as u16) >> 2u16) & 0x3f == (g as u16) >> 2u16) by (bit_vector);
        assert(((b as u16) >> 3u16) & 0x1f == (b as u16) >> 3u16) by (bit_vector);
    }
    (r5 << 11u16) | (g6 << 5u16) | b5
}

/// The packing keeps each channel's top bits in its own field: red's top five
/// bits are the result's bits 15 to 11, green's top six bits its bits 10 to 5,
/// and blue's top five bits its bits 4 to 0.
pub proof fn lemma_rgb565_fields(r: u8, g: u8, b: u8)
    ensures
        rgb565(r, g, b) >> 11u16 == (r >> 3u8) as u16,
        (rgb565(r, g, b) >> 5u16) & 0x3fu16 == (g >> 2u8) as u16,
        rgb565(r, g, b) & 0x1fu16 == (b >> 3u8) as u16,
{
    assert((((((r as u16) >> 3u16) << 11u16) | (((g as u16) >> 2u16) << 5u16) | ((b as u16)
        >> 3u16)) >> 11u16) == (r >> 3u8) as u16) by (bit_vector);
    assert(((((((r as u16) >> 3u16) << 11u16) | (((g as u16) >> 2u16) << 5u16) | ((b as u16)
        >> 3u16)) >> 5u16) & 0x3fu16) == (g >> 2u8) as u16) by (bit_vector);
    assert(((((((r as u16) >> 3u16) << 11u16) | (((g as u16) >> 2u16) << 5u16) | ((b as u16)
        >> 3u16))) & 0x1fu16) == (b >> 3u8) as u16) by (bit_vector);
}

} // verus!
