//! Compression of the flattened pixels into a JPEG stream.

use crate::diagnostics::ConvertError;
use crate::image_t::{
    framed_as_jpeg, jpeg_encode, jpeg_stream, raster_bytes, raster_size, RgbRaster, MAX_JPEG_SIDE,
};
use vstd::prelude::*;

verus! {

/// Whether an image of this size can be written as a JPEG: both sides lie in
/// `1..=MAX_JPEG_SIDE`.
pub open spec fn encodable(size: (u32, u32)) -> bool {
    1 <= size.0 <= MAX_JPEG_SIDE && 1 <= size.1 <= MAX_JPEG_SIDE
}

/// The error that reports a failed encoding, by where the stream was to go;
/// it keeps the encoder's reason.
pub open spec fn encode_failure(to_stdout: bool, reason: image::ImageError) -> ConvertError {
    if to_stdout {
        ConvertError::EncodeToStdoutFailed(reason)
    } else {
        ConvertError::EncodeFailed(reason)
    }
}

/// What the encoder's answer means for the run: a stream is passed on as it
/// is, and a refusal becomes the error of the sink that the stream was bound
/// for.
pub fn stream_or_error(
    encoded: Result<Vec<u8>, image::ImageError>,
    to_stdout: bool,
) -> (stream: Result<Vec<u8>, ConvertError>)
    ensures
        encoded matches Ok(bytes) ==> stream == Ok::<Vec<u8>, ConvertError>(bytes),
        encoded matches Err(reason) ==> stream == Err::<Vec<u8>, ConvertError>(
            encode_failure(to_stdout, reason),
        ),
{
    match encoded {
        Ok(bytes) => Ok(bytes),
        Err(reason) => if to_stdout {
            Err(ConvertError::EncodeToStdoutFailed(reason))
        } else {
            Err(ConvertError::EncodeFailed(reason))
        },
    }
}

/// Compresses the image at the given quality and hands back the bytes of the
/// stream, ready to be written to the output: never empty, and framed by the
/// markers that open and close a JPEG file. `to_stdout` says where they are
/// bound for, which decides how a failure is reported.
pub fn encode_output(raster: &RgbRaster, quality: u8, to_stdout: bool) -> (stream: Result<
    Vec<u8>,
    ConvertError,
>)
    ensures
        stream.is_ok() <==> encodable(raster_size(*raster)),
        stream matches Ok(bytes) ==> bytes@ == jpeg_stream(
            raster_size(*raster).0,
            raster_size(*raster).1,
            raster_bytes(*raster),
            quality,
        ) && framed_as_jpeg(bytes@) && bytes@.len() > 0,
        stream matches Err(e) ==> if to_stdout {
            e is EncodeToStdoutFailed
        } else {
            e is EncodeFailed
        },
{
    stream_or_error(jpeg_encode(raster, quality), to_stdout)
}

} // verus!
