use thumbnailer::create_thumbnail_buffer;
use thumbnailer::create_thumbnail_buffer_checked;
use thumbnailer::ErrorKind;

/// A solid opaque-red RGBA image of the given size, PNG-encoded.
fn red_png(width: u32, height: u32) -> Vec<u8> {
    let buffer = image::RgbaImage::from_pixel(width, height, image::Rgba([255, 0, 0, 255]));
    let mut cursor = std::io::Cursor::new(Vec::new());
    image::DynamicImage::ImageRgba8(buffer)
        .write_to(&mut cursor, image::ImageFormat::Png)
        .unwrap();
    cursor.into_inner()
}

/// A horizontal gradient RGB image of the given size, encoded in the
/// given container format.
fn gradient_bytes(width: u32, height: u32, format: image::ImageFormat) -> Vec<u8> {
    let buffer = image::RgbImage::from_fn(width, height, |x, y| {
        image::Rgb([(x * 4 + 7) as u8, (y * 3 + 11) as u8, ((x + y) * 2) as u8])
    });
    let mut cursor = std::io::Cursor::new(Vec::new());
    image::DynamicImage::ImageRgb8(buffer)
        .write_to(&mut cursor, format)
        .unwrap();
    cursor.into_inner()
}

#[test]
fn test_round_trip_dimensions() {
    let input = red_png(256, 256);
    let thumbnail = create_thumbnail_buffer(&input, 100, 50).unwrap();
    assert!(!thumbnail.is_empty());
    let decoded = image::load_from_memory(&thumbnail).unwrap();
    assert_eq!(decoded.width(), 100);
    assert_eq!(decoded.height(), 50);
}

#[test]
fn test_round_trip_dimensions_upscale() {
    let input = red_png(16, 16);
    let thumbnail = create_thumbnail_buffer(&input, 40, 64).unwrap();
    let decoded = image::load_from_memory(&thumbnail).unwrap();
    assert_eq!(decoded.width(), 40);
    assert_eq!(decoded.height(), 64);
}

#[test]
fn test_format_independence() {
    let png_input = gradient_bytes(64, 48, image::ImageFormat::Png);
    let jpeg_input = gradient_bytes(64, 48, image::ImageFormat::Jpeg);
    assert_ne!(png_input, jpeg_input);

    let from_png = create_thumbnail_buffer(&png_input, 37, 21).unwrap();
    let from_jpeg = create_thumbnail_buffer(&jpeg_input, 37, 21).unwrap();

    let decoded_png = image::load_from_memory(&from_png).unwrap();
    let decoded_jpeg = image::load_from_memory(&from_jpeg).unwrap();
    assert_eq!(decoded_png.width(), decoded_jpeg.width());
    assert_eq!(decoded_png.height(), decoded_jpeg.height());
    assert_eq!(decoded_png.width(), 37);
    assert_eq!(decoded_png.height(), 21);
}

#[test]
fn test_corrupt_input_rejected() {
    let noise: Vec<u8> = (0..64).map(|i| (i as u8).wrapping_mul(0xAB).wrapping_add(0x3C)).collect();
    let result = create_thumbnail_buffer(&noise, 32, 32);
    assert!(matches!(result, Err(ErrorKind::FormatDetection(_))));
}

#[test]
fn test_empty_input_rejected() {
    let result = create_thumbnail_buffer(&[], 32, 32);
    assert!(matches!(result, Err(ErrorKind::FormatDetection(_))));
}

#[test]
fn test_truncated_input_rejected() {
    let input = red_png(64, 64);
    // The 8-byte PNG signature plus part of the IHDR chunk: the format is
    // recognized, the payload is not decodable.
    let truncated = &input[..20];
    let result = create_thumbnail_buffer(truncated, 32, 32);
    assert!(matches!(result, Err(ErrorKind::Decode(_))));
}

#[test]
fn test_truncated_payload_rejected() {
    let input = red_png(64, 64);
    let truncated = &input[..input.len() / 2];
    let result = create_thumbnail_buffer(truncated, 32, 32);
    assert!(matches!(result, Err(ErrorKind::Decode(_))));
}

#[test]
fn test_zero_dimension_rejected_by_encoder() {
    let input = red_png(64, 64);
    let result = create_thumbnail_buffer(&input, 0, 32);
    assert!(matches!(result, Err(ErrorKind::Encode(_))));
    let result = create_thumbnail_buffer(&input, 32, 0);
    assert!(matches!(result, Err(ErrorKind::Encode(_))));
}

#[test]
fn test_end_to_end_red_thumbnail() {
    let input = red_png(256, 256);
    let thumbnail = create_thumbnail_buffer(&input, 64, 64).unwrap();

    let decoded = image::load_from_memory(&thumbnail).unwrap();
    assert_eq!(decoded.width(), 64);
    assert_eq!(decoded.height(), 64);
    let pixels = decoded.to_rgba8();
    for pixel in pixels.pixels() {
        let image::Rgba([r, g, b, a]) = *pixel;
        assert!(r >= 250, "red channel degraded: {}", r);
        assert!(g <= 5, "green channel not near zero: {}", g);
        assert!(b <= 5, "blue channel not near zero: {}", b);
        assert!(a >= 250, "alpha channel degraded: {}", a);
    }
}

#[test]
fn test_output_is_png_whatever_the_input() {
    let jpeg_input = gradient_bytes(48, 48, image::ImageFormat::Jpeg);
    let thumbnail = create_thumbnail_buffer(&jpeg_input, 24, 24).unwrap();
    let png_signature: [u8; 8] = [137, 80, 78, 71, 13, 10, 26, 10];
    assert_eq!(&thumbnail[..8], &png_signature);
    assert_ne!(thumbnail, jpeg_input);
    assert_eq!(image::guess_format(&thumbnail).unwrap(), image::ImageFormat::Png);
}

#[test]
fn test_checked_variant_in_budget() {
    let input = red_png(32, 32);
    let result = create_thumbnail_buffer_checked(&input, 16, 16).unwrap();
    let thumbnail = result.unwrap();
    let decoded = image::load_from_memory(&thumbnail).unwrap();
    assert_eq!(decoded.width(), 16);
    assert_eq!(decoded.height(), 16);
}

#[test]
fn test_checked_variant_out_of_budget() {
    let input = red_png(8, 8);
    // A target height this large would push the resampler's intermediate
    // buffer past the allocator's byte limit on any supported machine.
    let result = create_thumbnail_buffer_checked(&input, 1, u32::MAX);
    assert!(result.is_none());
}

#[test]
fn test_error_labels() {
    let detection = ErrorKind::FormatDetection(String::from("unknown signature"));
    assert_eq!(detection.label(), "Failed to determine image format");
    assert_eq!(detection.cause(), "unknown signature");

    let decode = ErrorKind::Decode(String::from("bad chunk"));
    assert_eq!(decode.label(), "Failed to decode image");
    assert_eq!(decode.cause(), "bad chunk");

    let encode = ErrorKind::Encode(String::from("zero width"));
    assert_eq!(encode.label(), "Failed to encode thumbnail");
    assert_eq!(encode.cause(), "zero width");

    let create = ErrorKind::FileCreate(String::from("no such directory"));
    assert_eq!(create.label(), "Failed to create file");
    assert_eq!(create.cause(), "no such directory");

    let write = ErrorKind::Write(String::from("device full"));
    assert_eq!(write.label(), "Failed to write to file");
    assert_eq!(write.cause(), "device full");
}

#[test]
fn test_float_color_input_normalized_to_rgba() {
    // EXR decodes to a 32-bit float color model; resampling normalizes
    // it to 8-bit RGBA, so the PNG encode succeeds.
    let buffer = image::Rgb32FImage::from_pixel(8, 8, image::Rgb([0.5f32, 0.25f32, 0.125f32]));
    let mut cursor = std::io::Cursor::new(Vec::new());
    image::DynamicImage::ImageRgb32F(buffer)
        .write_to(&mut cursor, image::ImageFormat::OpenExr)
        .unwrap();
    let exr_input = cursor.into_inner();
    let thumbnail = create_thumbnail_buffer(&exr_input, 4, 4).unwrap();
    let decoded = image::load_from_memory(&thumbnail).unwrap();
    assert_eq!(decoded.width(), 4);
    assert_eq!(decoded.height(), 4);
}

#[test]
fn test_checked_variant_reports_stage_error_before_budget() {
    // Undecodable input paired with out-of-budget dimensions: the stage
    // error is reported, not the budget.
    let noise: Vec<u8> = vec![0x51; 64];
    let result = create_thumbnail_buffer_checked(&noise, 1, u32::MAX);
    assert!(matches!(result, Some(Err(ErrorKind::FormatDetection(_)))));

    let input = red_png(16, 16);
    let truncated = &input[..20];
    let result = create_thumbnail_buffer_checked(truncated, 1, u32::MAX);
    assert!(matches!(result, Some(Err(ErrorKind::Decode(_)))));
}

#[test]
fn test_output_length_holds_signature() {
    let input = red_png(16, 16);
    let thumbnail = create_thumbnail_buffer(&input, 8, 8).unwrap();
    assert!(thumbnail.len() >= 8);
}
