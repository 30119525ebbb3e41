//! Flattening: from premultiplied RGBA pixels drawn over a background to RGB
//! pixels, by dropping every fourth byte.

use crate::image_t::{
    raster_as_raw, raster_bytes, raster_from_raw, raster_height, raster_size, raster_width,
    RgbRaster,
};
use crate::skia_t::{
    channel, pixmap_bytes, pixmap_data, pixmap_height, pixmap_size, pixmap_width, solid,
};
use vstd::prelude::*;
use vstd::slice::slice_subrange;

verus! {

/// The RGB bytes of the whole pixels in `rgba`: of each four bytes the first
/// three, in order. Bytes after the last whole pixel are left out.
pub open spec fn drop_alpha(rgba: Seq<u8>) -> Seq<u8> {
    Seq::new(((rgba.len() / 4) * 3) as nat, |i: int| rgba[(i / 3) * 4 + i % 3])
}

/// Flattening `pixels` whole pixels gives three bytes for each.
pub proof fn lemma_drop_alpha_len(rgba: Seq<u8>, pixels: nat)
    requires
        rgba.len() == 4 * pixels,
    ensures
        drop_alpha(rgba).len() == 3 * pixels,
{
}

/// Color channel `k` of pixel `p` survives flattening unchanged, and lands at
/// byte `3 * p + k`.
pub proof fn lemma_drop_alpha_keeps_channels(rgba: Seq<u8>, p: int, k: int)
    requires
        0 <= p < rgba.len() / 4,
        0 <= k < 3,
    ensures
        3 * p + k < drop_alpha(rgba).len(),
        drop_alpha(rgba)[3 * p + k] == rgba[4 * p + k],
{
    let i: int = 3 * p + k;
    assert(i / 3 == p);
    assert(i % 3 == k);
}

/// Flattening a canvas that is filled with one pixel leaves that pixel's three
/// color channels in every pixel of the image: an undrawn white canvas
/// flattens to 255 throughout.
pub proof fn lemma_flattened_fill(pixels: nat, pixel: (u8, u8, u8, u8), p: int, k: int)
    requires
        0 <= p < pixels,
        0 <= k < 3,
    ensures
        drop_alpha(solid(pixels, pixel)).len() == 3 * pixels,
        drop_alpha(solid(pixels, pixel))[3 * p + k] == channel(pixel, k),
{
    lemma_drop_alpha_keeps_channels(solid(pixels, pixel), p, k);
}

/// Copies the red, green and blue bytes of every whole pixel of `rgba`.
pub fn flatten_alpha(rgba: &[u8]) -> (rgb: Vec<u8>)
    ensures
        rgb@ == drop_alpha(rgba@),
{
    let pixels: usize = rgba.len() / 4;
    let mut rgb: Vec<u8> = Vec::with_capacity(pixels * 3);
    let mut p: usize = 0;
    while p < pixels
        invariant
            pixels == rgba@.len() / 4,
            4 * pixels <= rgba@.len() <= usize::MAX,
            p <= pixels,
            rgb@.len() == 3 * p,
            forall|i: int| 0 <= i < 3 * p ==> rgb@[i] == rgba@[(i / 3) * 4 + i % 3],
        decreases pixels - p,
    {
        let base: usize = p * 4;
        rgb.push(rgba[base]);
        rgb.push(rgba[base + 1]);
        rgb.push(rgba[base + 2]);
        p += 1;
    }
    assert(rgb@ =~= drop_alpha(rgba@));
    rgb
}

/// The bytes of a pixmap's pixels: the first four bytes per pixel of its
/// buffer, without whatever the buffer holds after them.
pub open spec fn pixmap_pixels(pixmap: tiny_skia::Pixmap) -> Seq<u8> {
    pixmap_bytes(pixmap).subrange(0, 4 * pixmap_size(pixmap).0 * pixmap_size(pixmap).1)
}

/// Turns a composited pixmap into an RGB image of the same size: the color
/// bytes of every pixel are copied as they are, the alpha byte is dropped.
/// The image holds three bytes for each pixel of the pixmap, whatever else
/// the pixmap's buffer holds.
pub fn convert_pixmap_to_rgb(pixmap: &tiny_skia::Pixmap) -> (raster: RgbRaster)
    ensures
        raster_size(raster) == pixmap_size(*pixmap),
        raster_bytes(raster) == drop_alpha(pixmap_pixels(*pixmap)),
        raster_bytes(raster).len() == pixmap_size(*pixmap).0 * pixmap_size(*pixmap).1 * 3,
{
    let width: u32 = pixmap_width(pixmap);
    let height: u32 = pixmap_height(pixmap);
    let data = pixmap_data(pixmap);
    let total: usize = data.len();
    let ghost n: int = width as int * height as int;
    proof {
        assert(4 * width * height == 4 * n) by (nonlinear_arith)
            requires
                n == width as int * height as int,
        ;
        assert(3 * width * height == 3 * n) by (nonlinear_arith)
            requires
                n == width as int * height as int,
        ;
        assert(width * height * 3 == 3 * n);
        assert(4 * n <= total);
        assert(width as usize * height as usize == n);
    }
    let pixels: usize = width as usize * height as usize;
    let rgb = flatten_alpha(slice_subrange(data, 0, pixels * 4));
    raster_from_raw(width, height, rgb).unwrap()
}

impl RgbRaster {
    /// The width in pixels.
    pub fn width(&self) -> (width: u32)
        ensures
            width == raster_size(*self).0,
    {
        raster_width(self)
    }

    /// The height in pixels.
    pub fn height(&self) -> (height: u32)
        ensures
            height == raster_size(*self).1,
    {
        raster_height(self)
    }

    /// The RGB bytes, three per pixel.
    pub fn as_bytes(&self) -> (bytes: &[u8])
        ensures
            bytes@ == raster_bytes(*self),
    {
        raster_as_raw(self).as_slice()
    }
}

} // verus!
