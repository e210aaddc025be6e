//! Trusted view of the tensor library: the opaque tensor and device types,
//! a name for a tensor's shape, and one wrapper per tensor operation the
//! pipeline calls, each stating only what the operation's source shows
//! about the resulting shape.

use vstd::prelude::*;
use candle_core::IndexOp;

verus! {

#[verifier::external_type_specification]
#[verifier::external_body]
pub struct ExTensor(candle_core::Tensor);

#[verifier::external_type_specification]
#[verifier::external_body]
pub struct ExDevice(candle_core::Device);

#[verifier::external_type_specification]
#[verifier::external_body]
pub struct ExCandleError(candle_core::Error);

/// The dimension sizes of a tensor, outermost first. A tensor is a
/// collection of floating-point values; its contents stay opaque here and
/// only the shape is spoken of.
pub uninterp spec fn tensor_dims(t: candle_core::Tensor) -> Seq<int>;

/// Relies on candle_core::Tensor::from_vec: a tensor whose shape is the
/// given triple, when construction succeeds.
#[verifier::external_body]
pub(crate) fn tensor_from_u8_3d(
    data: Vec<u8>,
    d0: usize,
    d1: usize,
    d2: usize,
    device: &candle_core::Device,
) -> (r: Result<candle_core::Tensor, candle_core::Error>)
    ensures
        r matches Ok(t) ==> tensor_dims(t) == seq![d0 as int, d1 as int, d2 as int],
{
    candle_core::Tensor::from_vec(data, (d0, d1, d2), device)
}

/// Relies on candle_core::Tensor::from_vec: a rank-one tensor holding the
/// given bytes.
#[verifier::external_body]
pub(crate) fn tensor_from_u8_1d(data: Vec<u8>, device: &candle_core::Device) -> (r: Result<
    candle_core::Tensor,
    candle_core::Error,
>)
    ensures
        r matches Ok(t) ==> tensor_dims(t) == seq![data@.len() as int],
{
    let n = data.len();
    candle_core::Tensor::from_vec(data, n, device)
}

/// Relies on candle_core::Tensor::from_vec: a rank-one tensor holding the
/// given token ids.
#[verifier::external_body]
pub(crate) fn tensor_from_u32_1d(data: Vec<u32>, device: &candle_core::Device) -> (r: Result<
    candle_core::Tensor,
    candle_core::Error,
>)
    ensures
        r matches Ok(t) ==> tensor_dims(t) == seq![data@.len() as int],
{
    let n = data.len();
    candle_core::Tensor::from_vec(data, n, device)
}

/// Relies on candle_core::Tensor::ones: an all-ones 32-bit float tensor of
/// the given two-dimensional shape.
#[verifier::external_body]
pub(crate) fn tensor_ones_f32(d0: usize, d1: usize, device: &candle_core::Device) -> (r: Result<
    candle_core::Tensor,
    candle_core::Error,
>)
    ensures
        r matches Ok(t) ==> tensor_dims(t) == seq![d0 as int, d1 as int],
{
    candle_core::Tensor::ones((d0, d1), candle_core::DType::F32, device)
}

/// Relies on candle_core::Tensor::unsqueeze: inserts a leading dimension
/// of size one.
#[verifier::external_body]
pub(crate) fn tensor_unsqueeze_front(t: &candle_core::Tensor) -> (r: Result<
    candle_core::Tensor,
    candle_core::Error,
>)
    ensures
        r matches Ok(u) ==> tensor_dims(u) == seq![1int] + tensor_dims(*t),
{
    t.unsqueeze(0)
}

/// Relies on candle_core::Tensor::permute: reorders the dimensions of a
/// rank-three tensor by the given index triple.
#[verifier::external_body]
pub(crate) fn tensor_permute3(t: &candle_core::Tensor, p0: usize, p1: usize, p2: usize) -> (r:
    Result<candle_core::Tensor, candle_core::Error>)
    requires
        p0 < 3,
        p1 < 3,
        p2 < 3,
        p0 != p1,
        p1 != p2,
        p0 != p2,
    ensures
        r matches Ok(u) ==> (tensor_dims(*t).len() == 3 ==> tensor_dims(u) == seq![
            tensor_dims(*t)[p0 as int],
            tensor_dims(*t)[p1 as int],
            tensor_dims(*t)[p2 as int],
        ]),
{
    t.permute((p0, p1, p2))
}

/// Relies on candle_core::Tensor::to_dtype: casting to 32-bit float keeps
/// the shape.
#[verifier::external_body]
pub(crate) fn tensor_to_f32(t: &candle_core::Tensor) -> (r: Result<
    candle_core::Tensor,
    candle_core::Error,
>)
    ensures
        r matches Ok(u) ==> tensor_dims(u) == tensor_dims(*t),
{
    t.to_dtype(candle_core::DType::F32)
}

/// Relies on candle_core::Tensor::to_device: moving to a device keeps the
/// shape.
#[verifier::external_body]
pub(crate) fn tensor_move_to(t: &candle_core::Tensor, device: &candle_core::Device) -> (r: Result<
    candle_core::Tensor,
    candle_core::Error,
>)
    ensures
        r matches Ok(u) ==> tensor_dims(u) == tensor_dims(*t),
{
    t.to_device(device)
}

/// Relies on candle_core::Tensor::broadcast_sub: subtracting a one-element
/// tensor from a tensor of rank at least one keeps the left shape.
#[verifier::external_body]
pub(crate) fn tensor_broadcast_sub(a: &candle_core::Tensor, b: &candle_core::Tensor) -> (r: Result<
    candle_core::Tensor,
    candle_core::Error,
>)
    ensures
        r matches Ok(u) ==> ((tensor_dims(*b) == seq![1int] && tensor_dims(*a).len() >= 1)
            ==> tensor_dims(u) == tensor_dims(*a)),
{
    a.broadcast_sub(b)
}

/// Relies on candle_core::Tensor::broadcast_div: dividing a tensor of rank
/// at least one by a one-element tensor keeps the left shape.
#[verifier::external_body]
pub(crate) fn tensor_broadcast_div(a: &candle_core::Tensor, b: &candle_core::Tensor) -> (r: Result<
    candle_core::Tensor,
    candle_core::Error,
>)
    ensures
        r matches Ok(u) ==> ((tensor_dims(*b) == seq![1int] && tensor_dims(*a).len() >= 1)
            ==> tensor_dims(u) == tensor_dims(*a)),
{
    a.broadcast_div(b)
}

/// Relies on candle_core::Tensor::i with two integer indexes: selects
/// position zero along the first two dimensions, dropping both.
#[verifier::external_body]
pub(crate) fn tensor_index_front2(t: &candle_core::Tensor) -> (r: Result<
    candle_core::Tensor,
    candle_core::Error,
>)
    ensures
        r matches Ok(u) ==> tensor_dims(*t).len() >= 2 && tensor_dims(u) == tensor_dims(*t).skip(
            2,
        ),
{
    t.i((0, 0))
}

/// Relies on candle_core::Tensor::squeeze: drops the leading dimension
/// when it has size one, and otherwise returns the tensor unchanged.
#[verifier::external_body]
pub(crate) fn tensor_squeeze_front(t: &candle_core::Tensor) -> (r: Result<
    candle_core::Tensor,
    candle_core::Error,
>)
    ensures
        r matches Ok(u) ==> tensor_dims(*t).len() >= 1 && tensor_dims(u) == (if tensor_dims(*t)[0]
            == 1 {
            tensor_dims(*t).skip(1)
        } else {
            tensor_dims(*t)
        }),
{
    t.squeeze(0)
}

/// Relies on candle_core::utils::cuda_is_available: whether an accelerator
/// is present on this machine; nothing is promised of the outcome.
#[verifier::external_body]
pub(crate) fn accelerator_is_available() -> bool {
    candle_core::utils::cuda_is_available()
}

/// Relies on candle_core::Device::new_cuda: opens the accelerator with the
/// given ordinal.
#[verifier::external_body]
pub(crate) fn device_new_accelerator(ordinal: usize) -> (r: Result<
    candle_core::Device,
    candle_core::Error,
>)
{
    candle_core::Device::new_cuda(ordinal)
}

/// Relies on candle_core::Device::Cpu: the general-purpose compute device.
#[verifier::external_body]
pub(crate) fn device_cpu() -> candle_core::Device {
    candle_core::Device::Cpu
}

} // verus!
