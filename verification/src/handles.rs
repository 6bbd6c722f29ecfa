//! The few facts about ash's Vulkan handle and enum types that the resource
//! bookkeeping relies on. Handles are carried as their raw 64-bit values.

use ash::vk;
use ash::vk::Handle;
use vstd::prelude::*;

verus! {

/// Calls `is_null` of `ash::vk::Image` on the handle whose raw value is `raw`.
/// Claimed: the handle is null exactly when its raw value is zero (ash's
/// `Handle::is_null` compares `as_raw()` with zero, and `from_raw` keeps the value).
#[verifier::external_body]
pub(crate) fn image_is_null(raw: u64) -> (r: bool)
    ensures
        r == (raw == 0),
{
    vk::Image::from_raw(raw).is_null()
}

/// Calls `is_null` of `ash::vk::Buffer` on the handle whose raw value is `raw`.
/// Claimed: the handle is null exactly when its raw value is zero.
#[verifier::external_body]
pub(crate) fn buffer_is_null(raw: u64) -> (r: bool)
    ensures
        r == (raw == 0),
{
    vk::Buffer::from_raw(raw).is_null()
}

/// Calls `is_null` of `ash::vk::DeviceMemory` on the handle whose raw value is
/// `raw`. Claimed: the handle is null exactly when its raw value is zero.
#[verifier::external_body]
pub(crate) fn memory_is_null(raw: u64) -> (r: bool)
    ensures
        r == (raw == 0),
{
    vk::DeviceMemory::from_raw(raw).is_null()
}

/// The raw value of `ash::vk::Image::null()`. Claimed: zero (ash builds the null
/// handle of a non-dispatchable type from the value 0).
#[verifier::external_body]
pub(crate) fn null_image() -> (r: u64)
    ensures
        r == 0,
{
    vk::Image::null().as_raw()
}

/// The raw value of `ash::vk::ImageView::null()`. Claimed: zero.
#[verifier::external_body]
pub(crate) fn null_image_view() -> (r: u64)
    ensures
        r == 0,
{
    vk::ImageView::null().as_raw()
}

/// The raw value of `ash::vk::Buffer::null()`. Claimed: zero.
#[verifier::external_body]
pub(crate) fn null_buffer() -> (r: u64)
    ensures
        r == 0,
{
    vk::Buffer::null().as_raw()
}

/// The raw value of `ash::vk::DeviceMemory::null()`. Claimed: zero.
#[verifier::external_body]
pub(crate) fn null_memory() -> (r: u64)
    ensures
        r == 0,
{
    vk::DeviceMemory::null().as_raw()
}

/// The raw value of `ash::vk::ImageLayout::UNDEFINED`, the layout of a freshly
/// created image. Claimed: zero, as ash defines it (`Self(0)`) after the Vulkan
/// registry's `VK_IMAGE_LAYOUT_UNDEFINED`.
#[verifier::external_body]
pub(crate) fn layout_undefined() -> (r: i32)
    ensures
        r == 0,
{
    vk::ImageLayout::UNDEFINED.as_raw()
}

} // verus!
