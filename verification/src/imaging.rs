//! The trusted boundary to the `image` crate.
//!
//! Format detection, decoding, resampling and PNG encoding are delegated
//! to `image` behind the wrappers below. Their results are functions of
//! their arguments alone, so each is given a name (an uninterpreted spec
//! function); the verified pipeline in `thumbnail` speaks of those
//! names. The resampling and encoding names are exact for one build of
//! the library: the Lanczos kernel evaluates through the platform's
//! math library, so the last bits of pixel values are machine-relative.

use vstd::prelude::*;

verus! {

/// `image::DynamicImage` carried opaquely through the pipeline: a decoded
/// in-memory pixel buffer with its color model.
#[verifier::external_type_specification]
#[verifier::external_body]
pub struct ExDynamicImage(image::DynamicImage);

/// Whether a byte sequence starts with the signature of a container
/// format that `image::guess_format` recognizes.
pub uninterp spec fn format_recognized(s: Seq<u8>) -> bool;

/// The pixel buffer that the built-in decode path (`image::guess_format`
/// then `image::load_from_memory_with_format`) decodes a byte sequence
/// to, or `None` where decoding fails.
pub uninterp spec fn decoded_image(s: Seq<u8>) -> Option<image::DynamicImage>;

/// The width in pixels of an in-memory image.
pub uninterp spec fn image_width(img: image::DynamicImage) -> u32;

/// The height in pixels of an in-memory image.
pub uninterp spec fn image_height(img: image::DynamicImage) -> u32;

/// The 8-bit RGBA pixel buffer that Lanczos (3-lobe) resampling via
/// `imageops::resize` produces from an image at the given dimensions;
/// the source is sampled through its RGBA view, whatever its color
/// model.
pub uninterp spec fn resized_image(img: image::DynamicImage, width: u32, height: u32) -> image::DynamicImage;

/// The byte sequence that PNG serialization via `DynamicImage::write_to`
/// produces for a pixel buffer.
pub uninterp spec fn png_encoding(img: image::DynamicImage) -> Seq<u8>;

/// Whether an image's color model is one the PNG encoder can represent:
/// every 8- and 16-bit color type is; the 32-bit float color types that
/// the EXR and HDR decoders produce are not.
pub uninterp spec fn png_color_encodable(img: image::DynamicImage) -> bool;

/// The eight-byte signature that opens every PNG stream.
pub open spec fn png_signature() -> Seq<u8> {
    seq![137u8, 80u8, 78u8, 71u8, 13u8, 10u8, 26u8, 10u8]
}

/// A successful decode never holds more pixels than this: the decoder
/// reserves `width * height * bytes_per_pixel` bytes (at least one byte
/// per pixel) against its default 512 MiB allocation budget.
pub const MAX_DECODED_PIXELS: u64 = 0x2000_0000;

/// The widest in-memory pixel representation is 16 bytes (four `f32`
/// samples); the resampler's buffers are bounded by 16 bytes per pixel.
pub const MAX_PIXEL_BYTES: u64 = 16;

/// Pixel budget under which a PNG produced by `encode_png` is sure to
/// decode again under the decoder's default allocation limit: at most
/// eight bytes per decoded pixel plus per-row scratch stays well under
/// 512 MiB for this many pixels.
pub const ROUND_TRIP_PIXEL_BUDGET: u64 = 0x0100_0000;

/// Relies on `image::guess_format`: it matches the buffer's leading bytes
/// against its table of container signatures, and returns `Ok` exactly
/// when one matches. On failure, the error's text is returned.
#[verifier::external_body]
pub(crate) fn detect_format(bytes: &[u8]) -> (r: Result<(), String>)
    ensures
        r is Ok <==> format_recognized(bytes@),
{
    match image::guess_format(bytes) {
        Ok(_) => Ok(()),
        Err(e) => Err(format!("{}", e)),
    }
}

/// Relies on `image::guess_format` and
/// `image::load_from_memory_with_format`: the buffer's leading bytes are
/// matched against the built-in table of container signatures (failing
/// where none matches), and the payload is then fully decoded by that
/// format's built-in decoder. This path never consults the
/// process-global format-detection or decoding hook registries, so the
/// result is a function of the byte content alone. Before returning,
/// the decoder reserves the output buffer of
/// `width * height * bytes_per_pixel` bytes against its default 512 MiB
/// allocation limit, so a returned image holds at most
/// `MAX_DECODED_PIXELS` pixels. On failure, the error's text is
/// returned.
#[verifier::external_body]
pub(crate) fn decode_image(bytes: &[u8]) -> (r: Result<image::DynamicImage, String>)
    ensures
        r is Ok <==> decoded_image(bytes@) is Some,
        r is Ok ==> r->Ok_0 == decoded_image(bytes@)->Some_0,
        r is Ok ==> format_recognized(bytes@),
        r is Ok ==> (image_width(r->Ok_0) as int) * (image_height(r->Ok_0) as int) <= MAX_DECODED_PIXELS as int,
{
    let format = match image::guess_format(bytes) {
        Ok(format) => format,
        Err(e) => return Err(format!("{}", e)),
    };
    image::load_from_memory_with_format(bytes, format).map_err(|e| format!("{}", e))
}

/// Relies on `imageops::resize` with `FilterType::Lanczos3`, applied to
/// the `DynamicImage` itself: sampling reads the source through its
/// 8-bit RGBA view, so the result is an 8-bit RGBA image of exactly the
/// requested dimensions whatever the source's color model — the step
/// that normalizes the color representation for the encoder. Aspect
/// ratio is not preserved. The preconditions keep its buffer
/// allocations (an intermediate of source-width x target-height and a
/// result of target-width x target-height, at most `MAX_PIXEL_BYTES`
/// bytes per pixel; no intermediate exists for an empty source) within
/// the allocator's byte limit, beyond which `ImageBuffer::new` panics
/// (on length overflow, and `vec!` above `isize::MAX` bytes).
#[verifier::external_body]
pub(crate) fn resize_lanczos3(img: &image::DynamicImage, width: u32, height: u32) -> (r: image::DynamicImage)
    requires
        MAX_PIXEL_BYTES as int * (width as int) * (height as int) <= isize::MAX as int,
        MAX_PIXEL_BYTES as int * (image_width(*img) as int) * (height as int) <= isize::MAX as int
            || image_width(*img) == 0 || image_height(*img) == 0,
    ensures
        r == resized_image(*img, width, height),
        image_width(r) == width,
        image_height(r) == height,
        png_color_encodable(r),
{
    image::DynamicImage::ImageRgba8(
        image::imageops::resize(img, width, height, image::imageops::FilterType::Lanczos3),
    )
}

/// Relies on `DynamicImage::write_to` with `ImageFormat::Png`, writing
/// to an in-memory cursor. The PNG encoder rejects exactly the images
/// with a zero dimension or a 32-bit float color model (it serializes
/// every 8- and 16-bit color type, and nothing converts a float image
/// for it); an in-memory write itself cannot fail. The output opens
/// with the eight-byte PNG signature, which `image::guess_format`
/// recognizes, and records the image's dimensions, which the built-in
/// PNG decoder reads back exactly; within `ROUND_TRIP_PIXEL_BUDGET`
/// pixels that decode also stays within the decoder's default
/// allocation limit. On failure, the error's text is returned.
#[verifier::external_body]
pub(crate) fn encode_png(img: &image::DynamicImage) -> (r: Result<Vec<u8>, String>)
    ensures
        r is Ok <==> (image_width(*img) >= 1 && image_height(*img) >= 1 && png_color_encodable(*img)),
        r is Ok ==> r->Ok_0@ == png_encoding(*img),
        r is Ok ==> r->Ok_0@.len() >= 8,
        r is Ok ==> r->Ok_0@.subrange(0, 8) == png_signature(),
        r is Ok ==> format_recognized(r->Ok_0@),
        r is Ok && (image_width(*img) as int) * (image_height(*img) as int) <= ROUND_TRIP_PIXEL_BUDGET as int ==> decoded_image(r->Ok_0@) is Some,
        r is Ok && (image_width(*img) as int) * (image_height(*img) as int) <= ROUND_TRIP_PIXEL_BUDGET as int ==> image_width(decoded_image(r->Ok_0@)->Some_0) == image_width(*img),
        r is Ok && (image_width(*img) as int) * (image_height(*img) as int) <= ROUND_TRIP_PIXEL_BUDGET as int ==> image_height(decoded_image(r->Ok_0@)->Some_0) == image_height(*img),
{
    let mut cursor = std::io::Cursor::new(Vec::new());
    match img.write_to(&mut cursor, image::ImageFormat::Png) {
        Ok(()) => Ok(cursor.into_inner()),
        Err(e) => Err(format!("{}", e)),
    }
}

} // verus!
