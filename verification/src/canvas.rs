//! The canvas: a pixel buffer of the target size, filled with the background
//! color, for the document to be drawn over.

use crate::background::white_pixel;
use crate::diagnostics::ConvertError;
use crate::skia_t::{
    channel, fill_pixel, pixmap_bytes, pixmap_fill, pixmap_new, pixmap_size, solid,
    MAX_PIXMAP_WIDTH,
};
use vstd::prelude::*;

verus! {

/// Whether a pixel buffer of this size can be had: neither side is zero, a row
/// is not wider than [`MAX_PIXMAP_WIDTH`], and its four bytes per pixel can be
/// asked of the allocator at all.
pub open spec fn canvas_fits(width: u32, height: u32) -> bool {
    &&& 1 <= width <= MAX_PIXMAP_WIDTH
    &&& 1 <= height
    &&& 4 * width * height <= isize::MAX
}

/// In a solid fill, channel `k` of pixel `p` is channel `k` of the fill's pixel.
pub proof fn lemma_solid_channel(pixels: nat, pixel: (u8, u8, u8, u8), p: int, k: int)
    requires
        0 <= p < pixels,
        0 <= k < 4,
    ensures
        solid(pixels, pixel).len() == 4 * pixels,
        solid(pixels, pixel)[4 * p + k] == channel(pixel, k),
{
}

/// A canvas filled with opaque white holds 255 in every byte.
pub proof fn lemma_white_canvas(pixels: nat, i: int)
    requires
        0 <= i < 4 * pixels,
    ensures
        solid(pixels, white_pixel())[i] == 255,
{
}

/// Allocates a pixel buffer of the given size and fills every pixel with the
/// background color.
pub fn blank_canvas(width: u32, height: u32, background: tiny_skia::Color) -> (canvas: Result<
    tiny_skia::Pixmap,
    ConvertError,
>)
    ensures
        canvas.is_ok() <==> canvas_fits(width, height),
        canvas matches Ok(pixmap) ==> pixmap_size(pixmap) == (width, height) && pixmap_bytes(
            pixmap,
        ) == solid((width * height) as nat, fill_pixel(background)),
        canvas matches Err(e) ==> e == ConvertError::BitmapAllocation,
{
    if width <= MAX_PIXMAP_WIDTH {
        assert(width as u64 * height as u64 <= 0x1FFF_FFFF * 0xFFFF_FFFF) by (nonlinear_arith)
            requires
                width <= 0x1FFF_FFFF,
                height <= 0xFFFF_FFFF,
        ;
        assert(4 * width * height == 4 * (width as u64 * height as u64)) by (nonlinear_arith);
        if 4 * (width as u64 * height as u64) > isize::MAX as u64 {
            return Err(ConvertError::BitmapAllocation);
        }
    }
    match pixmap_new(width, height) {
        Some(mut pixmap) => {
            pixmap_fill(&mut pixmap, background);
            Ok(pixmap)
        },
        None => Err(ConvertError::BitmapAllocation),
    }
}

} // verus!
