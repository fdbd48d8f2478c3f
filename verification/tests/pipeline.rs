use image::GenericImageView;
use image_combiner::combiner::combine_images;
use image_combiner::combiner::process_images;
use image_combiner::combiner::standardize_image;
use image_combiner::combiner::ImageDataErrors;

fn solid(width: u32, height: u32, rgb: [u8; 3]) -> image::DynamicImage {
    image::DynamicImage::ImageRgb8(image::RgbImage::from_pixel(width, height, image::Rgb(rgb)))
}

/// Encodes `img` as PNG in memory and decodes it back, the way the two
/// input files would be read.
fn png_roundtrip(img: &image::DynamicImage) -> (image::DynamicImage, image::ImageFormat) {
    let mut bytes: Vec<u8> = Vec::new();
    img.write_to(
        &mut std::io::Cursor::new(&mut bytes),
        image::ImageOutputFormat::Png,
    )
    .unwrap();
    let reader = image::io::Reader::new(std::io::Cursor::new(bytes))
        .with_guessed_format()
        .unwrap();
    let format = reader.format().unwrap();
    (reader.decode().unwrap(), format)
}

#[test]
fn standardize_equal_dimensions_unchanged() {
    let a = solid(2, 2, [10, 20, 30]);
    let b = solid(2, 2, [40, 50, 60]);
    let (a2, b2) = standardize_image(a.clone(), b.clone());
    assert_eq!(a2.dimensions(), (2, 2));
    assert_eq!(b2.dimensions(), (2, 2));
    assert_eq!(a2.as_bytes(), a.as_bytes());
    assert_eq!(b2.as_bytes(), b.as_bytes());
}

#[test]
fn standardize_resizes_larger_to_smaller() {
    let a = solid(4, 4, [10, 20, 30]);
    let b = solid(2, 2, [40, 50, 60]);
    let (a2, b2) = standardize_image(a, b.clone());
    assert_eq!(a2.dimensions(), (2, 2));
    assert_eq!(b2.dimensions(), (2, 2));
    // The smaller image is returned unchanged.
    assert_eq!(b2.as_bytes(), b.as_bytes());
    // A solid color stays solid through the smooth resize.
    assert_eq!(a2.to_rgb8().into_vec(), vec![10, 20, 30].repeat(4));
}

#[test]
fn standardize_resizes_second_when_first_is_smaller() {
    let a = solid(2, 2, [10, 20, 30]);
    let b = solid(5, 3, [40, 50, 60]);
    let (a2, b2) = standardize_image(a.clone(), b);
    assert_eq!(a2.dimensions(), (2, 2));
    assert_eq!(b2.dimensions(), (2, 2));
    assert_eq!(a2.as_bytes(), a.as_bytes());
}

#[test]
fn standardize_equal_area_takes_first_dimensions() {
    let a = solid(1, 6, [10, 20, 30]);
    let b = solid(2, 3, [40, 50, 60]);
    let (a2, b2) = standardize_image(a, b);
    assert_eq!(a2.dimensions(), (1, 6));
    assert_eq!(b2.dimensions(), (1, 6));
}

#[test]
fn combine_two_2x2_images() {
    let a = solid(2, 2, [10, 20, 30]);
    let b = solid(2, 2, [40, 50, 60]);
    let out = combine_images(a, b).unwrap();
    // 2*2*3 = 12 bytes: offsets 0 and 8 come from the first image,
    // offset 4 from the second.
    assert_eq!(
        out,
        vec![10, 20, 30, 10, 50, 60, 40, 50, 30, 10, 20, 30]
    );
}

#[test]
fn combine_rejects_unaligned_buffers() {
    // 1x1 images yield 3-byte buffers: no whole 4-byte window covers them.
    let a = solid(1, 1, [1, 2, 3]);
    let b = solid(1, 1, [4, 5, 6]);
    let r = combine_images(a, b);
    assert!(matches!(r, Err(ImageDataErrors::BufferIndexOutOfBounds)));
}

#[test]
fn end_to_end_two_2x2_pngs() {
    let (a, format_a) = png_roundtrip(&solid(2, 2, [10, 20, 30]));
    let (b, format_b) = png_roundtrip(&solid(2, 2, [40, 50, 60]));
    assert_eq!(format_a, image::ImageFormat::Png);
    let out = process_images(a, b, format_a == format_b, String::from("out.png")).unwrap();
    assert_eq!(out.width, 2);
    assert_eq!(out.height, 2);
    assert_eq!(out.name, "out.png");
    assert_eq!(out.data.len(), 16);
    // Bytes 0..4 from image A, 4..8 from image B, 8..12 from A again,
    // then zero padding up to RGBA size.
    assert_eq!(
        out.data,
        vec![10, 20, 30, 10, 50, 60, 40, 50, 30, 10, 20, 30, 0, 0, 0, 0]
    );
}

#[test]
fn pipeline_rejects_different_formats() {
    let a = solid(2, 2, [10, 20, 30]);
    let b = solid(2, 2, [40, 50, 60]);
    let r = process_images(a, b, false, String::from("out.png"));
    assert!(matches!(r, Err(ImageDataErrors::DifferentImageFormats)));
}

#[test]
fn pipeline_rejects_unaligned_pixel_buffers() {
    let a = solid(3, 3, [10, 20, 30]);
    let b = solid(3, 3, [40, 50, 60]);
    // 3*3*3 = 27 bytes per buffer: not a whole number of 4-byte windows.
    let r = process_images(a, b, true, String::from("out.png"));
    assert!(matches!(r, Err(ImageDataErrors::BufferIndexOutOfBounds)));
}

#[test]
fn pipeline_rejects_images_over_the_byte_budget() {
    // 1104 * 1104 * 3 = 3,656,448 bytes: window-aligned but over the
    // fixed 3,655,744-byte capacity of the output buffer.
    let a = solid(1104, 1104, [10, 20, 30]);
    let b = solid(1104, 1104, [40, 50, 60]);
    let r = process_images(a, b, true, String::from("out.png"));
    assert!(matches!(r, Err(ImageDataErrors::BufferTooSmall)));
}

#[test]
fn pipeline_rejects_nan_float_samples() {
    let mut float_buffer = image::Rgb32FImage::new(2, 2);
    float_buffer.put_pixel(0, 0, image::Rgb([f32::NAN, 0.0, 0.0]));
    let a = image::DynamicImage::ImageRgb32F(float_buffer);
    let b = solid(2, 2, [40, 50, 60]);
    let r = process_images(a, b, true, String::from("out.png"));
    assert!(matches!(r, Err(ImageDataErrors::SampleConversionFailed)));
}

#[test]
fn pipeline_accepts_finite_float_samples() {
    let float_buffer = image::Rgb32FImage::from_pixel(2, 2, image::Rgb([1.0, 1.0, 1.0]));
    let a = image::DynamicImage::ImageRgb32F(float_buffer);
    let b = solid(2, 2, [40, 50, 60]);
    let out = process_images(a, b, true, String::from("out.png")).unwrap();
    // A solid 1.0 float image converts to solid 255 RGB bytes.
    assert_eq!(
        out.data,
        vec![255, 255, 255, 255, 50, 60, 40, 50, 255, 255, 255, 255, 0, 0, 0, 0]
    );
}

#[test]
fn pipeline_standardizes_then_combines() {
    // Differing sizes: the larger first image is resized down to 2x2
    // before interleaving.
    let a = solid(4, 4, [10, 20, 30]);
    let b = solid(2, 2, [40, 50, 60]);
    let out = process_images(a, b, true, String::from("out.png")).unwrap();
    assert_eq!((out.width, out.height), (2, 2));
    assert_eq!(
        out.data,
        vec![10, 20, 30, 10, 50, 60, 40, 50, 30, 10, 20, 30, 0, 0, 0, 0]
    );
}
