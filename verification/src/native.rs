//! What the library takes from `ash` and `wgpu`: the numbers and names that
//! Vulkan and the two crates define, and the crates' own conversions.
//!
//! Verus does not look into the bodies below. Each contract repeats what
//! the crate's source defines; the constants of this module are the values
//! that the contracts speak of.

use vstd::prelude::*;

verus! {

/// Vulkan 1.1 as a packed version number: variant 0, major 1, minor 1,
/// patch 0.
pub const VK_API_VERSION_1_1: u32 = 0x0040_1000;

/// `VK_EXTERNAL_MEMORY_HANDLE_TYPE_OPAQUE_FD_BIT`.
pub const VK_HANDLE_TYPE_OPAQUE_FD: u32 = 0x1;

/// `VK_EXTERNAL_MEMORY_HANDLE_TYPE_OPAQUE_WIN32_BIT`.
pub const VK_HANDLE_TYPE_OPAQUE_WIN32: u32 = 0x2;

/// `VK_MEMORY_PROPERTY_DEVICE_LOCAL_BIT`.
pub const VK_MEMORY_PROPERTY_DEVICE_LOCAL: u32 = 0x1;

/// `VK_BUFFER_USAGE_TRANSFER_SRC_BIT`.
pub const VK_BUFFER_USAGE_TRANSFER_SRC: u32 = 0x1;

/// `VK_BUFFER_USAGE_TRANSFER_DST_BIT`.
pub const VK_BUFFER_USAGE_TRANSFER_DST: u32 = 0x2;

/// `VK_BUFFER_USAGE_STORAGE_BUFFER_BIT`.
pub const VK_BUFFER_USAGE_STORAGE_BUFFER: u32 = 0x20;

/// `wgpu::BufferUsages::COPY_SRC`.
pub const USAGE_COPY_SRC: u32 = 0x4;

/// `wgpu::BufferUsages::COPY_DST`.
pub const USAGE_COPY_DST: u32 = 0x8;

/// `wgpu::BufferUsages::STORAGE`.
pub const USAGE_STORAGE: u32 = 0x80;

/// `wgpu::BufferUses::COPY_SRC`.
pub const USES_COPY_SRC: u16 = 0x4;

/// `wgpu::BufferUses::COPY_DST`.
pub const USES_COPY_DST: u16 = 0x8;

/// `wgpu::BufferUses::STORAGE_READ_WRITE`.
pub const USES_STORAGE_READ_WRITE: u16 = 0x100;

/// The three uses that an exported buffer can have.
pub const USES_EXPORTABLE: u16 = 0x10C;

/// The Vulkan usage flags that `wgpu-hal` gives a buffer with the uses
/// `uses`, where `uses` holds none but the three exportable ones.
pub open spec fn vk_buffer_usage(uses: u16) -> u32 {
    (if uses & USES_COPY_SRC != 0 {
        VK_BUFFER_USAGE_TRANSFER_SRC
    } else {
        0u32
    }) | (if uses & USES_COPY_DST != 0 {
        VK_BUFFER_USAGE_TRANSFER_DST
    } else {
        0u32
    }) | (if uses & USES_STORAGE_READ_WRITE != 0 {
        VK_BUFFER_USAGE_STORAGE_BUFFER
    } else {
        0u32
    })
}

/// Reads `ash::vk::API_VERSION_1_1`, which ash defines as
/// `make_api_version(0, 1, 1, 0)`: major in bits 22 and up, minor in bits
/// 12 and up.
#[verifier::external_body]
pub(crate) fn api_version_1_1() -> (version: u32)
    ensures
        version == VK_API_VERSION_1_1,
{
    ash::vk::API_VERSION_1_1
}

/// Reads `ash::ext::metal_objects::NAME`, the name of the extension
/// `VK_EXT_metal_objects`.
#[verifier::external_body]
pub(crate) fn ext_metal_objects_name() -> (name: String)
    ensures
        name@ == "VK_EXT_metal_objects"@,
{
    ash::ext::metal_objects::NAME.to_string_lossy().into_owned()
}

/// Reads `ash::khr::external_memory_win32::NAME`, the name of the extension
/// `VK_KHR_external_memory_win32`.
#[verifier::external_body]
pub(crate) fn khr_external_memory_win32_name() -> (name: String)
    ensures
        name@ == "VK_KHR_external_memory_win32"@,
{
    ash::khr::external_memory_win32::NAME.to_string_lossy().into_owned()
}

/// Reads `ash::khr::external_semaphore_win32::NAME`, the name of the
/// extension `VK_KHR_external_semaphore_win32`.
#[verifier::external_body]
pub(crate) fn khr_external_semaphore_win32_name() -> (name: String)
    ensures
        name@ == "VK_KHR_external_semaphore_win32"@,
{
    ash::khr::external_semaphore_win32::NAME.to_string_lossy().into_owned()
}

/// Reads `ash::khr::external_memory_fd::NAME`, the name of the extension
/// `VK_KHR_external_memory_fd`.
#[verifier::external_body]
pub(crate) fn khr_external_memory_fd_name() -> (name: String)
    ensures
        name@ == "VK_KHR_external_memory_fd"@,
{
    ash::khr::external_memory_fd::NAME.to_string_lossy().into_owned()
}

/// Reads `ash::khr::external_semaphore_fd::NAME`, the name of the extension
/// `VK_KHR_external_semaphore_fd`.
#[verifier::external_body]
pub(crate) fn khr_external_semaphore_fd_name() -> (name: String)
    ensures
        name@ == "VK_KHR_external_semaphore_fd"@,
{
    ash::khr::external_semaphore_fd::NAME.to_string_lossy().into_owned()
}

/// Reads `ash::vk::ExternalMemoryHandleTypeFlags::OPAQUE_FD` as its raw
/// bits: bit 0.
#[verifier::external_body]
pub(crate) fn handle_type_opaque_fd() -> (bits: u32)
    ensures
        bits == VK_HANDLE_TYPE_OPAQUE_FD,
{
    ash::vk::ExternalMemoryHandleTypeFlags::OPAQUE_FD.as_raw()
}

/// Reads `ash::vk::ExternalMemoryHandleTypeFlags::OPAQUE_WIN32` as its raw
/// bits: bit 1.
#[verifier::external_body]
pub(crate) fn handle_type_opaque_win32() -> (bits: u32)
    ensures
        bits == VK_HANDLE_TYPE_OPAQUE_WIN32,
{
    ash::vk::ExternalMemoryHandleTypeFlags::OPAQUE_WIN32.as_raw()
}

/// Calls `ash::vk::MemoryPropertyFlags::contains` with `DEVICE_LOCAL` on
/// the flags whose raw bits are `property_flags`. The flag is bit 0, and
/// `contains` holds when every bit of its argument is set.
#[verifier::external_body]
pub(crate) fn is_device_local(property_flags: u32) -> (local: bool)
    ensures
        local == (property_flags & VK_MEMORY_PROPERTY_DEVICE_LOCAL
            == VK_MEMORY_PROPERTY_DEVICE_LOCAL),
{
    ash::vk::MemoryPropertyFlags::from_raw(property_flags).contains(
        ash::vk::MemoryPropertyFlags::DEVICE_LOCAL,
    )
}

/// Reads the bits of `wgpu::BufferUsages::COPY_SRC`: bit 2.
#[verifier::external_body]
pub(crate) fn usage_copy_src() -> (bits: u32)
    ensures
        bits == USAGE_COPY_SRC,
{
    wgpu::BufferUsages::COPY_SRC.bits()
}

/// Reads the bits of `wgpu::BufferUsages::COPY_DST`: bit 3.
#[verifier::external_body]
pub(crate) fn usage_copy_dst() -> (bits: u32)
    ensures
        bits == USAGE_COPY_DST,
{
    wgpu::BufferUsages::COPY_DST.bits()
}

/// Reads the bits of `wgpu::BufferUsages::STORAGE`: bit 7.
#[verifier::external_body]
pub(crate) fn usage_storage() -> (bits: u32)
    ensures
        bits == USAGE_STORAGE,
{
    wgpu::BufferUsages::STORAGE.bits()
}

/// Reads the bits of `wgpu::BufferUses::COPY_SRC`: bit 2.
#[verifier::external_body]
pub(crate) fn uses_copy_src() -> (bits: u16)
    ensures
        bits == USES_COPY_SRC,
{
    wgpu::BufferUses::COPY_SRC.bits()
}

/// Reads the bits of `wgpu::BufferUses::COPY_DST`: bit 3.
#[verifier::external_body]
pub(crate) fn uses_copy_dst() -> (bits: u16)
    ensures
        bits == USES_COPY_DST,
{
    wgpu::BufferUses::COPY_DST.bits()
}

/// Reads the bits of `wgpu::BufferUses::STORAGE_READ_WRITE`: bit 8.
#[verifier::external_body]
pub(crate) fn uses_storage_read_write() -> (bits: u16)
    ensures
        bits == USES_STORAGE_READ_WRITE,
{
    wgpu::BufferUses::STORAGE_READ_WRITE.bits()
}

/// Calls `wgpu::hal::vulkan::conv::map_buffer_usage` on the uses whose bits
/// are `uses`. On the three exportable uses it sets `TRANSFER_SRC` for
/// `COPY_SRC`, `TRANSFER_DST` for `COPY_DST`, `STORAGE_BUFFER` for
/// `STORAGE_READ_WRITE`, and nothing else; of other uses this contract says
/// nothing.
#[verifier::external_body]
pub(crate) fn map_buffer_usage(uses: u16) -> (flags: u32)
    requires
        uses & !USES_EXPORTABLE == 0,
    ensures
        flags == vk_buffer_usage(uses),
{
    wgpu::hal::vulkan::conv::map_buffer_usage(wgpu::BufferUses::from_bits_retain(uses)).as_raw()
}

} // verus!
