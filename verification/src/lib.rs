//! Thumbnail generation over encoded image bytes.
//!
//! The library decodes an encoded image (its container format detected
//! from the byte content alone), resamples it to caller-supplied
//! dimensions with a Lanczos (3-lobe) filter, and re-encodes the result
//! as PNG. Decoding, resampling and encoding are delegated to the
//! `image` crate behind trusted wrappers; the call sequence, when each
//! stage's failure is returned, and the shape of the result are what
//! this crate states and proves.
//!
//! The error taxonomy (`ErrorKind`) also names the two failures of
//! persisting a buffer to a file, so that callers doing that I/O report
//! under the same five stage labels.

mod errors;
mod imaging;
mod thumbnail;

pub use errors::ErrorKind;
pub use imaging::decoded_image;
pub use imaging::format_recognized;
pub use imaging::image_height;
pub use imaging::image_width;
pub use imaging::png_encoding;
pub use imaging::png_signature;
pub use imaging::resized_image;
pub use imaging::MAX_DECODED_PIXELS;
pub use imaging::MAX_PIXEL_BYTES;
pub use imaging::ROUND_TRIP_PIXEL_BUDGET;
pub use thumbnail::create_thumbnail_buffer;
pub use thumbnail::create_thumbnail_buffer_checked;
pub use thumbnail::decodes_to_dims;
pub use thumbnail::dimensions_in_budget;
pub use thumbnail::lemma_format_independence;
pub use thumbnail::thumbnail_bytes;
pub use thumbnail::thumbnail_outcome;
