//! Trusted boundary to the external image codec: the decoded-image type is
//! opaque here, and the few operations the pipeline needs are wrapped with
//! contracts over the two named results `dims_of` and `rgb_of`.
use vstd::prelude::*;

verus! {

#[verifier::external_type_specification]
#[verifier::external_body]
pub struct ExDynamicImage(image::DynamicImage);

/// The (width, height) a decoded image reports.
pub uninterp spec fn dims_of(img: image::DynamicImage) -> (u32, u32);

/// The image's raw RGB representation: row-major bytes, three (R, G, B)
/// per pixel, `width * height * 3` in all.
pub uninterp spec fn rgb_of(img: image::DynamicImage) -> Seq<u8>;

/// Whether every sample of the image converts to an 8-bit channel. It
/// holds of every integer-sample image; of a float-sample image it fails
/// exactly when some sample is NaN.
pub uninterp spec fn rgb_convertible(img: image::DynamicImage) -> bool;

/// The raw RGB bytes of the image resized to (w, h) with the Triangle
/// filter: deterministic arithmetic, a function of the source image and
/// the target dimensions alone.
pub uninterp spec fn resized_rgb_of(img: image::DynamicImage, w: u32, h: u32) -> Seq<u8>;

/// Relies on the channel conversion behind image::DynamicImage::to_rgb8
/// (color.rs, FromPrimitive<f32>): a float sample is clamped to [0, 1],
/// scaled, rounded and cast, and only NaN survives the clamp to make the
/// cast fail; integer samples always convert. Float samples occur in the
/// two f32 image variants alone.
#[verifier::external_body]
pub(crate) fn image_convertible(img: &image::DynamicImage) -> (r: bool)
    ensures
        r == rgb_convertible(*img),
{
    match img {
        image::DynamicImage::ImageRgb32F(buffer) => buffer.as_raw().iter().all(|s| !s.is_nan()),
        image::DynamicImage::ImageRgba32F(buffer) => buffer.as_raw().iter().all(|s| !s.is_nan()),
        _ => true,
    }
}

/// Relies on image::DynamicImage::dimensions (via GenericImageView), which
/// reports the width and height of the underlying bitmap.
#[verifier::external_body]
pub(crate) fn image_dimensions(img: &image::DynamicImage) -> (r: (u32, u32))
    ensures
        r == dims_of(*img),
{
    image::GenericImageView::dimensions(img)
}

/// Relies on image::DynamicImage::resize_exact with the Triangle filter:
/// the result is a new image whose dimensions are exactly (w, h), and the
/// resampling is deterministic in the source image and those dimensions,
/// so its RGB bytes carry the name `resized_rgb_of`. The `requires` keeps
/// every staging buffer of the resampler (at most 16 bytes per pixel, at
/// most `source width * h` or `w * h` pixels) below the maximum size of a
/// vector, where the call would panic.
#[verifier::external_body]
pub(crate) fn resize_image(img: &image::DynamicImage, w: u32, h: u32) -> (r: image::DynamicImage)
    requires
        16 * dims_of(*img).0 * h <= usize::MAX,
        16 * w * h <= usize::MAX,
    ensures
        dims_of(r) == (w, h),
        rgb_of(r) == resized_rgb_of(*img, w, h),
{
    img.resize_exact(w, h, image::imageops::FilterType::Triangle)
}

/// Relies on image::DynamicImage::to_rgb8 and ImageBuffer::into_vec: the
/// returned buffer holds exactly three bytes per pixel of the image, in
/// row-major order. The `requires` keeps to images whose samples convert
/// (a NaN float sample would make the channel cast panic) and that buffer
/// below the maximum size of a vector, where the allocation would panic.
#[verifier::external_body]
pub(crate) fn to_rgb_bytes(img: &image::DynamicImage) -> (r: Vec<u8>)
    requires
        rgb_convertible(*img),
        3 * dims_of(*img).0 * dims_of(*img).1 <= usize::MAX,
    ensures
        r@ == rgb_of(*img),
        r@.len() == 3 * dims_of(*img).0 * dims_of(*img).1,
{
    img.to_rgb8().into_vec()
}

} // verus!
