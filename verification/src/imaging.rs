//! RGB frames held in `image` crate buffers.

use image::{ImageBuffer, Rgb};
use vstd::prelude::*;

verus! {

/// An RGB image of the `image` crate (`ImageBuffer<Rgb<u8>, Vec<u8>>`).
#[verifier::external_body]
pub struct RgbImage {
    pub buffer: ImageBuffer<Rgb<u8>, Vec<u8>>,
}

/// The sample bytes an RGB image holds, row after row, three per pixel.
pub uninterp spec fn rgb_image_samples(image: RgbImage) -> Seq<u8>;

/// The width and height an RGB image was made with.
pub uninterp spec fn rgb_image_dimensions(image: RgbImage) -> (u32, u32);

/// `ImageBuffer::from_vec` for RGB images: the image is made exactly when the
/// sample count `3 * width * height`, computed in `usize` with overflow checks
/// (first `3 * width`, then times `height`), fits and is at most `data.len()`;
/// the image keeps `data` as it is and the given dimensions.
#[verifier::external_body]
pub(crate) fn rgb_image_from_vec(width: u32, height: u32, data: Vec<u8>) -> (r: Option<RgbImage>)
    ensures
        r is Some <==> (3 * width <= usize::MAX && 3 * width * height <= usize::MAX && 3 * width
            * height <= data@.len()),
        r matches Some(image) ==> rgb_image_samples(image) == data@ && rgb_image_dimensions(image)
            == (width, height),
{
    match ImageBuffer::from_vec(width, height, data) {
        Some(buffer) => Some(RgbImage { buffer }),
        None => None,
    }
}

} // verus!
