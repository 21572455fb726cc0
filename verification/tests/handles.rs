use raw_gpu_handle::handle::{
    BufferImportInfo, MemoryImportInfo, RawLinuxFd, RawMetalResourceHandle, RawResourceHandle,
    RawWin32Handle, SemaphoreImportInfo, TextureImageTiling, TextureImportInfo, TextureType,
};

#[test]
fn win32_handle_gives_back_its_integer() {
    assert_eq!(RawWin32Handle::new(0x1f4).get(), 0x1f4);
    assert_eq!(RawWin32Handle::new(0).get(), 0);
    assert_eq!(RawWin32Handle::new(-1).get(), -1);
    assert_eq!(RawWin32Handle::new(isize::MAX).get(), isize::MAX);
    assert_eq!(RawWin32Handle::new(isize::MIN).get(), isize::MIN);
}

#[test]
fn linux_fd_gives_back_its_integer() {
    assert_eq!(RawLinuxFd::new(7).get(), 7);
    assert_eq!(RawLinuxFd::new(0).get(), 0);
    assert_eq!(RawLinuxFd::new(-1).get(), -1);
    assert_eq!(RawLinuxFd::new(i32::MAX).get(), i32::MAX);
    assert_eq!(RawLinuxFd::new(i32::MIN).get(), i32::MIN);
}

#[test]
fn metal_resource_handle_gives_back_its_integer() {
    assert_eq!(RawMetalResourceHandle::new(42).get(), 42);
    assert_eq!(RawMetalResourceHandle::new(-42).get(), -42);
    assert_eq!(RawMetalResourceHandle::new(i64::MAX).get(), i64::MAX);
    assert_eq!(RawMetalResourceHandle::new(i64::MIN).get(), i64::MIN);
}

#[test]
fn handles_compare_by_their_integer() {
    assert_eq!(RawLinuxFd::new(3), RawLinuxFd::new(3));
    assert_ne!(RawLinuxFd::new(3), RawLinuxFd::new(4));
    assert_eq!(RawWin32Handle::new(3), RawWin32Handle::new(3));
    assert_ne!(RawWin32Handle::new(3), RawWin32Handle::new(-3));
    assert_eq!(RawMetalResourceHandle::new(9), RawMetalResourceHandle::new(9));
    assert_ne!(RawMetalResourceHandle::new(9), RawMetalResourceHandle::new(8));
}

#[test]
fn resource_handles_of_different_kinds_differ() {
    let fd = RawResourceHandle::LinuxFd(RawLinuxFd::new(5));
    let win32 = RawResourceHandle::Win32Handle(RawWin32Handle::new(5));
    let metal = RawResourceHandle::MetalResourceHandle(RawMetalResourceHandle::new(5));
    assert_ne!(fd, win32);
    assert_ne!(fd, metal);
    assert_ne!(win32, metal);
    assert_eq!(fd, RawResourceHandle::LinuxFd(RawLinuxFd::new(5)));
}

#[test]
fn handles_are_copied_not_moved() {
    let fd = RawLinuxFd::new(11);
    let copy = fd;
    assert_eq!(fd.get(), copy.get());
    let handle = RawResourceHandle::LinuxFd(fd);
    let other = handle;
    assert_eq!(handle, other);
}

#[test]
fn memory_import_info_shows_what_it_was_made_of() {
    let handle = RawResourceHandle::LinuxFd(RawLinuxFd::new(9));
    let info = MemoryImportInfo::new(handle, 128, 4096, 256);
    assert_eq!(info.raw_handle(), handle);
    assert_eq!(info.offset(), 128);
    assert_eq!(info.length(), 4096);
    assert_eq!(info.alignment_guarantees(), 256);
}

#[test]
fn memory_import_info_is_always_dedicated() {
    let fd = MemoryImportInfo::new(RawResourceHandle::LinuxFd(RawLinuxFd::new(1)), 0, 64, 16);
    let win32 =
        MemoryImportInfo::new(RawResourceHandle::Win32Handle(RawWin32Handle::new(1)), 0, 0, 0);
    let metal = MemoryImportInfo::new(
        RawResourceHandle::MetalResourceHandle(RawMetalResourceHandle::new(1)),
        u64::MAX,
        u64::MAX,
        u64::MAX,
    );
    assert!(fd.is_dedicated_allocation());
    assert!(win32.is_dedicated_allocation());
    assert!(metal.is_dedicated_allocation());
    assert_eq!(metal.offset(), u64::MAX);
    assert_eq!(metal.length(), u64::MAX);
    assert_eq!(metal.alignment_guarantees(), u64::MAX);
}

#[test]
fn import_records_carry_their_fields() {
    let handle = RawResourceHandle::Win32Handle(RawWin32Handle::new(77));
    let memory = MemoryImportInfo::new(handle, 0, 1024, 64);
    let buffer = BufferImportInfo { memory };
    assert_eq!(buffer.memory.length(), 1024);
    let semaphore = SemaphoreImportInfo { raw_handle: handle };
    assert_eq!(semaphore.raw_handle, handle);
    let texture = TextureImportInfo {
        memory,
        width: 640,
        height: 480,
        depth_or_array_layers: 6,
        dimension: TextureType::D2Array,
        tiling: TextureImageTiling::Linear,
    };
    assert_eq!(texture.memory.raw_handle(), handle);
    assert_eq!(texture.width, 640);
    assert_eq!(texture.height, 480);
    assert_eq!(texture.depth_or_array_layers, 6);
    assert_eq!(texture.dimension, TextureType::D2Array);
    assert_eq!(texture.tiling, TextureImageTiling::Linear);
    assert_ne!(TextureImageTiling::Linear, TextureImageTiling::Optimal);
    assert_ne!(TextureType::D1, TextureType::D3);
    assert_ne!(TextureType::D2, TextureType::D2Array);
}
