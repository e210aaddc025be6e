//! Image preprocessing: from a decoded raster image to the fixed-shape,
//! normalized input tensor of the vision encoder.

use vstd::prelude::*;
use crate::errors::PreprocessError;
use crate::tensors::{
    tensor_broadcast_div, tensor_broadcast_sub, tensor_dims, tensor_from_u8_1d, tensor_from_u8_3d,
    tensor_move_to, tensor_permute3, tensor_to_f32, tensor_unsqueeze_front,
};

verus! {

#[verifier::external_type_specification]
#[verifier::external_body]
pub struct ExDynamicImage(image::DynamicImage);

#[verifier::external_type_specification]
#[verifier::external_body]
pub struct ExImageError(image::ImageError);

/// Width and height of a raster image in pixels. An image is a collection
/// of pixel values; its contents stay opaque here and only the dimensions
/// are spoken of.
pub uninterp spec fn image_dims(img: image::DynamicImage) -> (int, int);

/// Relies on image::open: decodes the file at the given path into a raster
/// image; what comes back depends on what is on disk, so nothing is
/// promised of the outcome.
#[verifier::external_body]
pub(crate) fn image_open(path: &str) -> Result<image::DynamicImage, image::ImageError> {
    image::open(path)
}

/// Relies on image::DynamicImage::resize_exact with the triangle filter:
/// the result has exactly the requested dimensions, with the aspect ratio
/// ignored.
#[verifier::external_body]
pub(crate) fn image_resize_exact(img: &image::DynamicImage, width: u32, height: u32) -> (r:
    image::DynamicImage)
    requires
        width >= 1,
        height >= 1,
    ensures
        image_dims(r) == (width as int, height as int),
{
    img.resize_exact(width, height, image::imageops::FilterType::Triangle)
}

/// Relies on image::DynamicImage::to_rgb8 and ImageBuffer::into_raw: the
/// three-channel, eight-bit pixel buffer in row-major order, holding three
/// bytes per pixel.
#[verifier::external_body]
pub(crate) fn image_rgb8_raw(img: &image::DynamicImage) -> (r: Vec<u8>)
    ensures
        r@.len() == 3 * image_dims(*img).0 * image_dims(*img).1,
{
    img.to_rgb8().into_raw()
}

/// The edge length of the square input expected by the vision encoder.
pub open spec fn encoder_side() -> int {
    384
}

/// The shape of the preprocessed input tensor: one batch entry, three
/// color channels, and the square spatial extent.
pub open spec fn preprocessed_dims() -> Seq<int> {
    seq![1int, 3int, encoder_side(), encoder_side()]
}

/// A one-element tensor holding the byte value `v`, cast to 32-bit float.
fn scalar_f32(v: u8, device: &candle_core::Device) -> (r: Result<
    candle_core::Tensor,
    PreprocessError,
>)
    ensures
        r matches Ok(t) ==> tensor_dims(t) == seq![1int],
{
    let raw = match tensor_from_u8_1d(vec![v], device) {
        Ok(t) => t,
        Err(_) => {
            return Err(PreprocessError::TensorFailure);
        },
    };
    match tensor_to_f32(&raw) {
        Ok(t) => Ok(t),
        Err(_) => Err(PreprocessError::TensorFailure),
    }
}

/// Converts a decoded image into the vision encoder's input: resized to
/// the square extent with a quality-preserving filter, three-channel,
/// channel-first, 32-bit float, scaled from byte range to the unit
/// interval, normalized per channel with mean one half and standard
/// deviation one half, and given a leading batch dimension.
pub fn preprocess(img: &image::DynamicImage, device: &candle_core::Device) -> (r: Result<
    candle_core::Tensor,
    PreprocessError,
>)
    ensures
        r matches Ok(t) ==> tensor_dims(t) == preprocessed_dims(),
{
    let resized = image_resize_exact(img, 384, 384);
    let data = image_rgb8_raw(&resized);
    let hwc = match tensor_from_u8_3d(data, 384, 384, 3, device) {
        Ok(t) => t,
        Err(_) => {
            return Err(PreprocessError::TensorFailure);
        },
    };
    let chw = match tensor_permute3(&hwc, 2, 0, 1) {
        Ok(t) => t,
        Err(_) => {
            return Err(PreprocessError::TensorFailure);
        },
    };
    let chw_f32 = match tensor_to_f32(&chw) {
        Ok(t) => t,
        Err(_) => {
            return Err(PreprocessError::TensorFailure);
        },
    };
    let on_device = match tensor_move_to(&chw_f32, device) {
        Ok(t) => t,
        Err(_) => {
            return Err(PreprocessError::TensorFailure);
        },
    };
    // Scale from [0, 255] to [0, 1], then normalize with mean .5, std .5:
    // the affine map built here from integer-valued scalar tensors.
    let byte_max = scalar_f32(255, device)?;
    let one = scalar_f32(1, device)?;
    let two = scalar_f32(2, device)?;
    let half = match tensor_broadcast_div(&one, &two) {
        Ok(t) => t,
        Err(_) => {
            return Err(PreprocessError::TensorFailure);
        },
    };
    let unit = match tensor_broadcast_div(&on_device, &byte_max) {
        Ok(t) => t,
        Err(_) => {
            return Err(PreprocessError::TensorFailure);
        },
    };
    let centered = match tensor_broadcast_sub(&unit, &half) {
        Ok(t) => t,
        Err(_) => {
            return Err(PreprocessError::TensorFailure);
        },
    };
    let normalized = match tensor_broadcast_div(&centered, &half) {
        Ok(t) => t,
        Err(_) => {
            return Err(PreprocessError::TensorFailure);
        },
    };
    match tensor_unsqueeze_front(&normalized) {
        Ok(t) => {
            assert(tensor_dims(t) =~= preprocessed_dims());
            Ok(t)
        },
        Err(_) => Err(PreprocessError::TensorFailure),
    }
}

} // verus!
