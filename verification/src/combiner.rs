use crate::codec::dims_of;
use crate::codec::image_convertible;
use crate::codec::image_dimensions;
use crate::codec::resize_image;
use crate::codec::resized_rgb_of;
use crate::codec::rgb_convertible;
use crate::codec::rgb_of;
use crate::codec::to_rgb_bytes;
use vstd::prelude::*;

verus! {

/// Fixed byte budget of an output buffer, chosen once at construction and
/// never grown: a size policy, independent of the image dimensions.
pub const BUFFER_CAPACITY: usize = 3_655_744;

#[derive(Debug)]
pub enum ImageDataErrors {
    /// The two inputs were decoded from different container formats.
    DifferentImageFormats,
    /// Assigned data would exceed the output buffer's fixed capacity.
    BufferTooSmall,
    /// Interleaving would have to read past the end of a source buffer.
    BufferIndexOutOfBounds,
    /// A float sample of an input image (a NaN) does not convert to an
    /// 8-bit color channel.
    SampleConversionFailed,
}

/// The output image: dimensions, pixel bytes and the destination name.
pub struct FloatingImage {
    pub width: u32,
    pub height: u32,
    pub data: Vec<u8>,
    pub name: String,
}

impl FloatingImage {
    /// Creates an output image with an empty data buffer of fixed capacity.
    pub fn new(width: u32, height: u32, name: String) -> (r: FloatingImage)
        ensures
            r.width == width,
            r.height == height,
            r.name == name,
            r.data@ == Seq::<u8>::empty(),
    {
        let buffer: Vec<u8> = Vec::with_capacity(BUFFER_CAPACITY);
        FloatingImage { width, height, data: buffer, name }
    }

    /// Replaces the buffer's content with `data`, unless `data` is larger
    /// than the fixed capacity; then nothing changes and the too-small
    /// error is reported.
    pub fn set_data(&mut self, data: Vec<u8>) -> (r: Result<(), ImageDataErrors>)
        ensures
            final(self).width == old(self).width,
            final(self).height == old(self).height,
            final(self).name == old(self).name,
            r is Ok <==> data@.len() <= BUFFER_CAPACITY,
            match r {
                Ok(()) => final(self).data@ == data@,
                Err(e) => e == ImageDataErrors::BufferTooSmall && *final(self) == *old(self),
            },
    {
        if data.len() > BUFFER_CAPACITY {
            return Err(ImageDataErrors::BufferTooSmall);
        }
        self.data = data;
        Ok(())
    }

    /// Extends the buffer with zero bytes until it holds `width * height`
    /// four-byte RGBA pixels; a buffer already that long or longer stays
    /// as it is.
    pub fn pad_to_rgba(&mut self)
        requires
            4 * old(self).width * old(self).height <= usize::MAX,
        ensures
            final(self).width == old(self).width,
            final(self).height == old(self).height,
            final(self).name == old(self).name,
            final(self).data@.len() == (if old(self).data@.len() >= 4 * old(self).width * old(
                self,
            ).height {
                old(self).data@.len() as int
            } else {
                4 * old(self).width * old(self).height
            }),
            forall|i: int|
                0 <= i < old(self).data@.len() ==> final(self).data@[i] == old(self).data@[i],
            forall|i: int|
                old(self).data@.len() <= i < final(self).data@.len() ==> final(self).data@[i]
                    == 0u8,
    {
        proof {
            let w = old(self).width as int;
            let h = old(self).height as int;
            assert(w * h * 4 == 4 * w * h && w * h <= 4 * w * h && 0 <= w * h) by (nonlinear_arith)
                requires
                    0 <= w,
                    0 <= h,
            ;
        }
        let expected: usize = (self.width as usize) * (self.height as usize) * 4;
        while self.data.len() < expected
            invariant
                expected == 4 * old(self).width * old(self).height,
                self.width == old(self).width,
                self.height == old(self).height,
                self.name == old(self).name,
                old(self).data@.len() <= self.data@.len(),
                self.data@.len() <= expected || self.data@.len() == old(self).data@.len(),
                forall|i: int|
                    0 <= i < old(self).data@.len() ==> self.data@[i] == old(self).data@[i],
                forall|i: int|
                    old(self).data@.len() <= i < self.data@.len() ==> self.data@[i] == 0u8,
            decreases expected - self.data@.len(),
        {
            self.data.push(0u8);
        }
    }
}

/// The combination of two equal-length byte buffers: byte `i` comes from
/// the first buffer when the 4-byte window holding `i` is even-numbered,
/// from the second when it is odd-numbered.
pub open spec fn interleaved(a: Seq<u8>, b: Seq<u8>) -> Seq<u8>
    recommends
        a.len() == b.len(),
{
    Seq::new(a.len(), |i: int| if (i / 4) % 2 == 0 { a[i] } else { b[i] })
}

/// Every 4-byte-aligned window of the combined buffer is copied whole from
/// one source: from the first buffer exactly when the window index `i / 4`
/// is even, that is, when the window starts on an 8-byte boundary.
pub proof fn lemma_interleave_window(a: Seq<u8>, b: Seq<u8>, i: int)
    requires
        a.len() == b.len(),
        0 <= i < a.len(),
        i % 4 == 0,
    ensures
        interleaved(a, b).len() == a.len(),
        forall|j: int|
            i <= j < i + 4 && j < a.len() ==> interleaved(a, b)[j] == (if i % 8 == 0 {
                a[j]
            } else {
                b[j]
            }),
{
    assert forall|j: int| i <= j < i + 4 && j < a.len() implies interleaved(a, b)[j] == (if i % 8
        == 0 {
        a[j]
    } else {
        b[j]
    }) by {
        assert(j / 4 == i / 4);
        assert((i / 4) % 2 == 0 <==> i % 8 == 0);
    }
}

/// Copies bytes `start..=end` out of `vec` into a fresh buffer.
pub fn set_rgba(vec: &Vec<u8>, start: usize, end: usize) -> (r: Vec<u8>)
    requires
        start <= end,
        end < vec.len(),
    ensures
        r@ == vec@.subrange(start as int, end as int + 1),
{
    let mut rgba: Vec<u8> = Vec::new();
    let mut i: usize = start;
    while i <= end
        invariant
            start <= i <= end + 1,
            end < vec.len(),
            rgba@.len() == i - start,
            forall|j: int| start <= j < i ==> rgba@[j - start] == vec@[j],
        decreases end + 1 - i,
    {
        let val = vec[i];
        rgba.push(val);
        i += 1;
    }
    proof {
        assert(rgba@ =~= vec@.subrange(start as int, end as int + 1));
    }
    rgba
}

/// Interleaves two raw RGB buffers of the same length in 4-byte windows:
/// windows starting on an 8-byte boundary of the output are copied from
/// the first buffer, the others from the second. Buffers of differing
/// lengths, or of a length no whole number of windows covers, are
/// rejected: the walk would read past the end of a source buffer.
pub fn alternate_pixels(vec1: Vec<u8>, vec2: Vec<u8>) -> (r: Result<Vec<u8>, ImageDataErrors>)
    ensures
        r is Ok <==> (vec1@.len() == vec2@.len() && vec1@.len() % 4 == 0),
        match r {
            Ok(out) => out@ == interleaved(vec1@, vec2@),
            Err(e) => e == ImageDataErrors::BufferIndexOutOfBounds,
        },
{
    if vec1.len() != vec2.len() || vec1.len() % 4 != 0 {
        return Err(ImageDataErrors::BufferIndexOutOfBounds);
    }
    let n = vec1.len();
    let mut combined: Vec<u8> = Vec::new();
    let mut i: usize = 0;
    while i < n
        invariant
            n == vec1@.len(),
            vec1@.len() == vec2@.len(),
            n % 4 == 0,
            i % 4 == 0,
            i <= n,
            combined@.len() == i,
            forall|j: int|
                0 <= j < i ==> combined@[j] == (if (j / 4) % 2 == 0 {
                    vec1@[j]
                } else {
                    vec2@[j]
                }),
        decreases n - i,
    {
        let mut window = if i % 8 == 0 {
            set_rgba(&vec1, i, i + 3)
        } else {
            set_rgba(&vec2, i, i + 3)
        };
        combined.append(&mut window);
        proof {
            assert forall|j: int| i <= j < i + 4 implies combined@[j] == (if (j / 4) % 2 == 0 {
                vec1@[j]
            } else {
                vec2@[j]
            }) by {
                assert(j / 4 == i / 4);
                assert((i / 4) % 2 == 0 <==> i % 8 == 0);
            }
        }
        i += 4;
    }
    proof {
        assert(combined@ =~= interleaved(vec1@, vec2@));
    }
    Ok(combined)
}

/// Pixel count of a (width, height) pair.
pub open spec fn area(dim: (u32, u32)) -> int {
    dim.0 * dim.1
}

/// The pair with the fewer pixels; the first pair on a tie.
pub open spec fn smaller_dimensions(dim1: (u32, u32), dim2: (u32, u32)) -> (u32, u32) {
    if area(dim1) <= area(dim2) {
        dim1
    } else {
        dim2
    }
}

proof fn lemma_u32_mul_fits_u64(a: u32, b: u32)
    ensures
        (a as int) * (b as int) <= u64::MAX,
{
    assert((a as int) * (b as int) <= 0xffff_ffff * 0xffff_ffff) by (nonlinear_arith)
        requires
            a <= 0xffff_ffffu32,
            b <= 0xffff_ffffu32,
    ;
}

/// Picks the dimension pair covering fewer total pixels; ties go to the
/// first argument.
pub fn get_smallest_dimensions(dim1: (u32, u32), dim2: (u32, u32)) -> (r: (u32, u32))
    ensures
        r == smaller_dimensions(dim1, dim2),
        area(r) <= area(dim1),
        area(r) <= area(dim2),
        area(dim1) == area(dim2) ==> r == dim1,
{
    proof {
        lemma_u32_mul_fits_u64(dim1.0, dim1.1);
        lemma_u32_mul_fits_u64(dim2.0, dim2.1);
    }
    let pix1 = (dim1.0 as u64) * (dim1.1 as u64);
    let pix2 = (dim2.0 as u64) * (dim2.1 as u64);
    if pix1 <= pix2 {
        dim1
    } else {
        dim2
    }
}

/// Every staging buffer of a smooth resize between images of these two
/// dimension pairs (at most 16 bytes per pixel, over any mix of one pair's
/// width and the other's height) stays below the maximum size of a vector.
pub open spec fn resize_within_bounds(d1: (u32, u32), d2: (u32, u32)) -> bool {
    &&& 16 * d1.0 * d1.1 <= usize::MAX
    &&& 16 * d2.0 * d2.1 <= usize::MAX
    &&& 16 * d1.0 * d2.1 <= usize::MAX
    &&& 16 * d2.0 * d1.1 <= usize::MAX
}

/// The RGB bytes an image holds once it has been brought to the target
/// dimensions: its own bytes if it already has them, the bytes of its
/// triangle-filter resize otherwise.
pub open spec fn standardized_rgb(img: image::DynamicImage, target: (u32, u32)) -> Seq<u8> {
    if dims_of(img) == target {
        rgb_of(img)
    } else {
        resized_rgb_of(img, target.0, target.1)
    }
}

/// Brings both images to a common size: whichever image does not already
/// have the dimensions of the smaller-area input is resized, with a smooth
/// triangle resampling filter, to exactly those dimensions; an image that
/// already matches them is returned unchanged.
pub fn standardize_image(image1: image::DynamicImage, image2: image::DynamicImage) -> (r: (
    image::DynamicImage,
    image::DynamicImage,
))
    requires
        resize_within_bounds(dims_of(image1), dims_of(image2)),
    ensures
        dims_of(r.0) == smaller_dimensions(dims_of(image1), dims_of(image2)),
        dims_of(r.1) == dims_of(r.0),
        dims_of(image1) == smaller_dimensions(dims_of(image1), dims_of(image2)) ==> r.0 == image1,
        dims_of(image2) == smaller_dimensions(dims_of(image1), dims_of(image2)) ==> r.1 == image2,
        dims_of(image1) == dims_of(image2) ==> r == (image1, image2),
        rgb_of(r.0) == standardized_rgb(image1, smaller_dimensions(dims_of(image1), dims_of(image2))),
        rgb_of(r.1) == standardized_rgb(image2, smaller_dimensions(dims_of(image1), dims_of(image2))),
{
    let dim1 = image_dimensions(&image1);
    let dim2 = image_dimensions(&image2);
    let target = get_smallest_dimensions(dim1, dim2);
    if dim1.0 == target.0 && dim1.1 == target.1 {
        if dim2.0 == target.0 && dim2.1 == target.1 {
            (image1, image2)
        } else {
            let resized2 = resize_image(&image2, target.0, target.1);
            (image1, resized2)
        }
    } else {
        let resized1 = resize_image(&image1, target.0, target.1);
        (resized1, image2)
    }
}

/// Converts both images to their raw RGB bytes and interleaves the two
/// buffers in 4-byte windows.
pub fn combine_images(image1: image::DynamicImage, image2: image::DynamicImage) -> (r: Result<
    Vec<u8>,
    ImageDataErrors,
>)
    requires
        rgb_convertible(image1),
        rgb_convertible(image2),
        3 * dims_of(image1).0 * dims_of(image1).1 <= usize::MAX,
        3 * dims_of(image2).0 * dims_of(image2).1 <= usize::MAX,
    ensures
        rgb_of(image1).len() == 3 * dims_of(image1).0 * dims_of(image1).1,
        rgb_of(image2).len() == 3 * dims_of(image2).0 * dims_of(image2).1,
        r is Ok <==> (rgb_of(image1).len() == rgb_of(image2).len() && rgb_of(image1).len() % 4
            == 0),
        match r {
            Ok(out) => out@ == interleaved(rgb_of(image1), rgb_of(image2)),
            Err(e) => e == ImageDataErrors::BufferIndexOutOfBounds,
        },
{
    let vec1 = to_rgb_bytes(&image1);
    let vec2 = to_rgb_bytes(&image2);
    alternate_pixels(vec1, vec2)
}

/// Runs the whole pixel pipeline on two decoded images: rejects inputs of
/// differing container formats, standardizes both to the smaller area,
/// rejects images whose float samples do not convert to 8-bit channels,
/// interleaves the RGB bytes, and pads the result with zero bytes to
/// full RGBA size. The returned output image is ready for the encoder.
pub fn process_images(
    image1: image::DynamicImage,
    image2: image::DynamicImage,
    formats_match: bool,
    name: String,
) -> (r: Result<FloatingImage, ImageDataErrors>)
    requires
        resize_within_bounds(dims_of(image1), dims_of(image2)),
    ensures
        ({
            let target = smaller_dimensions(dims_of(image1), dims_of(image2));
            let rgb_len = 3 * target.0 * target.1;
            &&& (!formats_match ==> r == Err::<FloatingImage, ImageDataErrors>(
                ImageDataErrors::DifferentImageFormats,
            ))
            &&& (formats_match ==> match r {
                Ok(out) => {
                    &&& rgb_len % 4 == 0
                    &&& rgb_len <= BUFFER_CAPACITY
                    &&& out.width == target.0
                    &&& out.height == target.1
                    &&& out.name == name
                    &&& out.data@.len() == 4 * target.0 * target.1
                    &&& forall|i: int|
                        rgb_len <= i < out.data@.len() ==> out.data@[i] == 0u8
                    &&& out.data@.subrange(0, rgb_len) == interleaved(
                        standardized_rgb(image1, target),
                        standardized_rgb(image2, target),
                    )
                },
                Err(e) => {
                    ||| (e == ImageDataErrors::SampleConversionFailed)
                    ||| (e == ImageDataErrors::BufferIndexOutOfBounds && rgb_len % 4 != 0)
                    ||| (e == ImageDataErrors::BufferTooSmall && rgb_len % 4 == 0 && rgb_len
                        > BUFFER_CAPACITY)
                },
            })
            &&& (formats_match && dims_of(image1) == dims_of(image2) ==> match r {
                Ok(out) => rgb_convertible(image1) && rgb_convertible(image2),
                Err(e) => (e == ImageDataErrors::SampleConversionFailed <==> !(rgb_convertible(
                    image1,
                ) && rgb_convertible(image2))),
            })
        }),
{
    if !formats_match {
        return Err(ImageDataErrors::DifferentImageFormats);
    }
    let (std1, std2) = standardize_image(image1, image2);
    if !image_convertible(&std1) || !image_convertible(&std2) {
        return Err(ImageDataErrors::SampleConversionFailed);
    }
    let dims = image_dimensions(&std1);
    proof {
        let tw = dims.0 as int;
        let th = dims.1 as int;
        assert(3 * tw * th <= 16 * tw * th && 4 * tw * th <= 16 * tw * th && 3 * tw * th <= 4 * tw
            * th && 0 <= tw * th) by (nonlinear_arith)
            requires
                0 <= tw,
                0 <= th,
        ;
    }
    let mut output = FloatingImage::new(dims.0, dims.1, name);
    let combined_data = match combine_images(std1, std2) {
        Ok(data) => data,
        Err(e) => {
            return Err(e);
        },
    };
    let ghost combined_view = combined_data@;
    match output.set_data(combined_data) {
        Ok(()) => {},
        Err(e) => {
            return Err(e);
        },
    }
    output.pad_to_rgba();
    proof {
        assert(output.data@.subrange(0, combined_view.len() as int) =~= combined_view);
    }
    Ok(output)
}

} // verus!
