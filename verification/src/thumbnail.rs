//! The thumbnail pipeline: detect the container format, decode, resample
//! to the requested dimensions with a Lanczos (3-lobe) filter, re-encode
//! as PNG. Every failure is terminal and is reported under the stage at
//! which it arose; no partial result is ever returned.

use vstd::prelude::*;

use crate::errors::ErrorKind;
use crate::imaging::decode_image;
use crate::imaging::decoded_image;
use crate::imaging::detect_format;
use crate::imaging::encode_png;
use crate::imaging::format_recognized;
use crate::imaging::image_height;
use crate::imaging::image_width;
use crate::imaging::png_encoding;
use crate::imaging::png_signature;
use crate::imaging::resize_lanczos3;
use crate::imaging::resized_image;
use crate::imaging::MAX_DECODED_PIXELS;
use crate::imaging::MAX_PIXEL_BYTES;
use crate::imaging::ROUND_TRIP_PIXEL_BUDGET;

verus! {

/// The byte sequence a successful thumbnail call returns: the PNG
/// serialization of the decoded input, resampled to the given dimensions.
pub open spec fn thumbnail_bytes(s: Seq<u8>, width: u32, height: u32) -> Seq<u8> {
    png_encoding(resized_image(decoded_image(s)->Some_0, width, height))
}

/// Whether a byte sequence decodes successfully to exactly the given
/// pixel dimensions.
pub open spec fn decodes_to_dims(t: Seq<u8>, width: u32, height: u32) -> bool {
    &&& decoded_image(t) is Some
    &&& image_width(decoded_image(t)->Some_0) == width
    &&& image_height(decoded_image(t)->Some_0) == height
}

/// Whether the target dimensions keep every pixel buffer of the pipeline
/// within the allocator's byte limit (`isize::MAX`), so that no
/// resampling allocation can panic. The second bound covers the
/// resampler's intermediate buffer, whose width is the source image's:
/// a decoded source holds at most `MAX_DECODED_PIXELS` pixels, so that
/// width never exceeds it.
pub open spec fn dimensions_in_budget(width: u32, height: u32) -> bool {
    &&& MAX_PIXEL_BYTES as int * (width as int) * (height as int) <= isize::MAX as int
    &&& MAX_DECODED_PIXELS as int * MAX_PIXEL_BYTES as int * (height as int) <= isize::MAX as int
}

/// What a thumbnail call returns, case by case.
///
/// Success is owed exactly when the input's container signature is
/// recognized, its payload decodes, and both target dimensions are
/// positive; the result is then the PNG serialization of the resampled
/// image. It opens with the eight-byte PNG signature, and within
/// `ROUND_TRIP_PIXEL_BUDGET` pixels it decodes again to exactly the
/// target dimensions. Each failure names the first stage that failed:
/// an unrecognized signature, a recognized format whose payload does
/// not decode, or PNG serialization of a degenerate (zero-dimension)
/// thumbnail. The persistence failures never arise here.
pub open spec fn thumbnail_outcome(s: Seq<u8>, width: u32, height: u32, r: Result<Vec<u8>, ErrorKind>) -> bool {
    &&& r is Ok <==> (format_recognized(s) && decoded_image(s) is Some && width >= 1 && height >= 1)
    &&& r is Ok ==> r->Ok_0@ == thumbnail_bytes(s, width, height)
    &&& r is Ok ==> r->Ok_0@.len() >= 8 && r->Ok_0@.subrange(0, 8) == png_signature()
    &&& r is Ok && (width as int) * (height as int) <= ROUND_TRIP_PIXEL_BUDGET as int ==> decodes_to_dims(r->Ok_0@, width, height)
    &&& r is Ok ==> format_recognized(r->Ok_0@)
    &&& (r is Err && r->Err_0 is FormatDetection) <==> !format_recognized(s)
    &&& (r is Err && r->Err_0 is Decode) <==> (format_recognized(s) && decoded_image(s) is None)
    &&& (r is Err && r->Err_0 is Encode) <==> (format_recognized(s) && decoded_image(s) is Some && (width == 0 || height == 0))
    &&& r is Err ==> !(r->Err_0 is FileCreate) && !(r->Err_0 is Write)
}

/// The tail of the pipeline, shared by both entry points: resamples a
/// decoded image to the target dimensions and serializes it as PNG.
/// Resampling normalizes the color model to 8-bit RGBA, so the encoder
/// fails only on a zero target dimension.
fn resample_and_encode(image: &image::DynamicImage, width: u32, height: u32) -> (r: Result<
    Vec<u8>,
    ErrorKind,
>)
    requires
        MAX_PIXEL_BYTES as int * (width as int) * (height as int) <= isize::MAX as int,
        MAX_PIXEL_BYTES as int * (image_width(*image) as int) * (height as int) <= isize::MAX as int
            || image_width(*image) == 0 || image_height(*image) == 0,
    ensures
        r is Ok <==> (width >= 1 && height >= 1),
        r is Ok ==> r->Ok_0@ == png_encoding(resized_image(*image, width, height)),
        r is Ok ==> r->Ok_0@.len() >= 8 && r->Ok_0@.subrange(0, 8) == png_signature(),
        r is Ok && (width as int) * (height as int) <= ROUND_TRIP_PIXEL_BUDGET as int ==> decodes_to_dims(r->Ok_0@, width, height),
        r is Ok ==> format_recognized(r->Ok_0@),
        r is Err ==> r->Err_0 is Encode,
{
    let thumbnail = resize_lanczos3(image, width, height);
    match encode_png(&thumbnail) {
        Ok(bytes) => Ok(bytes),
        Err(cause) => Err(ErrorKind::Encode(cause)),
    }
}

/// Creates a thumbnail from the provided image bytes with the specified
/// dimensions and returns it as a buffer of PNG-encoded bytes.
///
/// The container format is detected from the byte content alone; the
/// decoded image is resampled to exactly `width` x `height` pixels with a
/// Lanczos (3-lobe) filter, upscaling or downscaling alike, and then
/// serialized as PNG whatever the input format was. Resampling reads the
/// decoded image through its 8-bit RGBA view, which normalizes the color
/// model (an EXR or HDR source's float samples included) before
/// encoding. The input buffer is only read, and the output buffer is
/// freshly allocated.
///
/// Exactly one of the three generator failures is returned, at the
/// first stage that fails: unrecognized signature, corrupt or truncated
/// payload, or PNG serialization of a degenerate (zero-dimension)
/// thumbnail. A target dimension of zero is passed through to the
/// encoder, which rejects it.
///
/// The preconditions are the machine's, not the format's: they keep the
/// resampler's buffer lengths within the allocator's byte limit, where
/// the delegated library would otherwise panic rather than err.
pub fn create_thumbnail_buffer(image_bytes: &[u8], width: u32, height: u32) -> (r: Result<
    Vec<u8>,
    ErrorKind,
>)
    requires
        dimensions_in_budget(width, height),
    ensures
        thumbnail_outcome(image_bytes@, width, height, r),
{
    if let Err(cause) = detect_format(image_bytes) {
        return Err(ErrorKind::FormatDetection(cause));
    }
    let image = match decode_image(image_bytes) {
        Ok(image) => image,
        Err(cause) => {
            return Err(ErrorKind::Decode(cause));
        },
    };
    proof {
        lemma_source_width_in_budget(
            image_width(image) as int,
            image_height(image) as int,
            height as int,
        );
    }
    resample_and_encode(&image, width, height)
}

/// Creates a thumbnail as `create_thumbnail_buffer` does, testing at run
/// time that the target dimensions fit this machine's resampling budget.
/// Format and decode failures are reported whatever the dimensions; only
/// an input that does decode, paired with dimensions out of budget,
/// yields `None` — exactly the calls whose buffers the resampler could
/// not have allocated. Callers that cannot establish the budget ahead of
/// time use this entry point.
pub fn create_thumbnail_buffer_checked(image_bytes: &[u8], width: u32, height: u32) -> (r: Option<
    Result<Vec<u8>, ErrorKind>,
>)
    ensures
        r is None <==> (format_recognized(image_bytes@) && decoded_image(image_bytes@) is Some
            && !dimensions_in_budget(width, height)),
        r is Some ==> thumbnail_outcome(image_bytes@, width, height, r->Some_0),
{
    if let Err(cause) = detect_format(image_bytes) {
        return Some(Err(ErrorKind::FormatDetection(cause)));
    }
    let image = match decode_image(image_bytes) {
        Ok(image) => image,
        Err(cause) => {
            return Some(Err(ErrorKind::Decode(cause)));
        },
    };
    proof {
        assert((width as int) * (height as int) <= 0xFFFF_FFFF_FFFF_FFFF) by (nonlinear_arith)
            requires
                width as int <= 0xFFFF_FFFF,
                height as int <= 0xFFFF_FFFF,
        ;
    }
    let target_pixels: u128 = (width as u128) * (height as u128);
    proof {
        assert((MAX_PIXEL_BYTES as int) * (target_pixels as int) <= u128::MAX as int) by (nonlinear_arith)
            requires
                MAX_PIXEL_BYTES == 16,
                target_pixels as int <= 0xFFFF_FFFF_FFFF_FFFF,
        ;
        assert((MAX_DECODED_PIXELS as int) * (MAX_PIXEL_BYTES as int) * (height as int) <= u128::MAX as int) by (nonlinear_arith)
            requires
                MAX_PIXEL_BYTES == 16,
                MAX_DECODED_PIXELS == 0x2000_0000,
                height as int <= 0xFFFF_FFFF,
        ;
    }
    let result_bytes: u128 = (MAX_PIXEL_BYTES as u128) * target_pixels;
    let intermediate_bytes: u128 = (MAX_DECODED_PIXELS as u128) * (MAX_PIXEL_BYTES as u128) * (
    height as u128);
    proof {
        assert((MAX_PIXEL_BYTES as int) * (width as int) * (height as int) == (MAX_PIXEL_BYTES as int) * ((width as int) * (height as int))) by (nonlinear_arith);
    }
    if !(result_bytes <= isize::MAX as u128 && intermediate_bytes <= isize::MAX as u128) {
        return None;
    }
    proof {
        lemma_source_width_in_budget(
            image_width(image) as int,
            image_height(image) as int,
            height as int,
        );
    }
    Some(resample_and_encode(&image, width, height))
}

/// The resampler's intermediate buffer of `iw * h` pixels fits in the
/// allocator's byte limit for every decoded source: a source with both
/// dimensions nonzero has `iw <= iw * ih <= MAX_DECODED_PIXELS`.
proof fn lemma_source_width_in_budget(iw: int, ih: int, h: int)
    requires
        iw * ih <= MAX_DECODED_PIXELS as int,
        0 <= iw,
        0 <= ih,
        0 <= h,
        MAX_DECODED_PIXELS as int * MAX_PIXEL_BYTES as int * h <= isize::MAX as int,
    ensures
        MAX_PIXEL_BYTES as int * iw * h <= isize::MAX as int || iw == 0 || ih == 0,
{
    if iw >= 1 && ih >= 1 {
        assert(iw <= MAX_DECODED_PIXELS as int) by (nonlinear_arith)
            requires
                iw * ih <= MAX_DECODED_PIXELS as int,
                iw >= 1,
                ih >= 1,
        ;
        assert(MAX_PIXEL_BYTES as int * iw * h <= MAX_DECODED_PIXELS as int * MAX_PIXEL_BYTES as int * h) by (nonlinear_arith)
            requires
                iw <= MAX_DECODED_PIXELS as int,
                iw >= 0,
                h >= 0,
        ;
    }
}

/// Format independence: any two thumbnails produced at the same target
/// dimensions decode to the same pixel dimensions, whatever container
/// formats their source images were encoded in; only the pixel values
/// may differ.
pub proof fn lemma_format_independence(ta: Seq<u8>, tb: Seq<u8>, width: u32, height: u32)
    requires
        decodes_to_dims(ta, width, height),
        decodes_to_dims(tb, width, height),
    ensures
        image_width(decoded_image(ta)->Some_0) == image_width(decoded_image(tb)->Some_0),
        image_height(decoded_image(ta)->Some_0) == image_height(decoded_image(tb)->Some_0),
{
}

} // verus!
