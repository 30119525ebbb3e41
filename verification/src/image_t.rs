//! Trusted: what this crate takes for granted about the `image` crate's RGB
//! buffer and its JPEG encoder. Nothing in this file is proved; every contract
//! restates what the named function's source shows.

use vstd::prelude::*;

verus! {

/// An `image::RgbImage`: eight-bit RGB pixels in a `Vec<u8>`, without alpha.
/// The buffer type of the `image` crate is generic over that crate's pixel
/// trait, so it is held here in a struct of this crate, whose inside the
/// verifier does not see, and reached only through the functions below.
#[verifier::external_body]
pub struct RgbRaster {
    inner: image::RgbImage,
}

/// `image::ImageError`, the reason an image could not be encoded.
#[verifier::external_type_specification]
#[verifier::external_body]
pub struct ExImageError(image::ImageError);

/// The largest width and height that a JPEG frame header has room for.
pub const MAX_JPEG_SIDE: u32 = 65535;

/// The bytes of an RGB image: three per pixel (red, green, blue), pixels from
/// left to right, rows from top to bottom.
pub uninterp spec fn raster_bytes(raster: RgbRaster) -> Seq<u8>;

/// The width and the height of an RGB image, in pixels.
pub uninterp spec fn raster_size(raster: RgbRaster) -> (u32, u32);

/// The JPEG stream that `image::codecs::jpeg::JpegEncoder` writes for an RGB
/// image of the given size and bytes at the given quality. The encoding
/// (color transform, cosine transform, quantisation, entropy coding) is the
/// encoder's own and is not restated.
pub uninterp spec fn jpeg_stream(width: u32, height: u32, rgb: Seq<u8>, quality: u8) -> Seq<u8>;

/// Whether a stream is framed as a JPEG file is framed: it opens with the
/// start-of-image marker and closes with the end-of-image marker.
pub open spec fn framed_as_jpeg(stream: Seq<u8>) -> bool {
    &&& stream.len() >= 4
    &&& stream[0] == 0xFF
    &&& stream[1] == 0xD8
    &&& stream[stream.len() - 2] == 0xFF
    &&& stream[stream.len() - 1] == 0xD9
}

/// `image::ImageBuffer::from_raw` for RGB pixels in a `Vec<u8>`. It accepts the
/// buffer exactly when it holds at least three bytes for each pixel, and then
/// keeps the size and the buffer as they were given.
#[verifier::external_body]
pub(crate) fn raster_from_raw(width: u32, height: u32, buf: Vec<u8>) -> (raster: Option<RgbRaster>)
    ensures
        raster.is_some() <==> 3 * width * height <= buf@.len(),
        raster matches Some(r) ==> raster_size(r) == (width, height) && raster_bytes(r) == buf@,
{
    image::RgbImage::from_raw(width, height, buf).map(|inner| RgbRaster { inner })
}

/// `image::ImageBuffer::width`.
#[verifier::external_body]
pub(crate) fn raster_width(raster: &RgbRaster) -> (width: u32)
    ensures
        width == raster_size(*raster).0,
{
    raster.inner.width()
}

/// `image::ImageBuffer::height`.
#[verifier::external_body]
pub(crate) fn raster_height(raster: &RgbRaster) -> (height: u32)
    ensures
        height == raster_size(*raster).1,
{
    raster.inner.height()
}

/// `image::ImageBuffer::as_raw`. It lends the buffer the image was made from.
#[verifier::external_body]
pub(crate) fn raster_as_raw(raster: &RgbRaster) -> (buf: &Vec<u8>)
    ensures
        buf@ == raster_bytes(*raster),
{
    raster.inner.as_raw()
}

/// `image::codecs::jpeg::JpegEncoder::new_with_quality` on an empty `Vec<u8>`,
/// then `encode_image`. Writing into a vector cannot fail, so the encoder
/// refuses exactly the images with a side of zero or above [`MAX_JPEG_SIDE`];
/// for the others the vector ends up holding the stream named by
/// [`jpeg_stream`]. The encoder writes the start-of-image marker before
/// anything else and the end-of-image marker after everything else.
#[verifier::external_body]
pub(crate) fn jpeg_encode(raster: &RgbRaster, quality: u8) -> (stream: Result<
    Vec<u8>,
    image::ImageError,
>)
    ensures
        stream.is_ok() <==> (1 <= raster_size(*raster).0 <= MAX_JPEG_SIDE && 1 <= raster_size(
            *raster,
        ).1 <= MAX_JPEG_SIDE),
        stream matches Ok(bytes) ==> bytes@ == jpeg_stream(
            raster_size(*raster).0,
            raster_size(*raster).1,
            raster_bytes(*raster),
            quality,
        ) && framed_as_jpeg(bytes@),
{
    let mut stream = Vec::new();
    let done = image::codecs::jpeg::JpegEncoder::new_with_quality(&mut stream, quality)
        .encode_image(&raster.inner);
    done.map(|_| stream)
}

} // verus!
