use raw_gpu_handle::capability::{
    adapter_supports_external_resources, required_vk_version, required_vulkan_extensions,
    AdapterCapabilities,
};
use raw_gpu_handle::platform::{Backend, HostPlatform};
use raw_gpu_handle::native::VK_API_VERSION_1_1;

fn adapter(backend: Backend, api_version: u32, extensions: &[&str]) -> AdapterCapabilities {
    AdapterCapabilities {
        backend,
        api_version,
        extensions: extensions.iter().map(|name| name.to_string()).collect(),
    }
}

fn linux_adapter() -> AdapterCapabilities {
    adapter(
        Backend::Vulkan,
        VK_API_VERSION_1_1,
        &["VK_KHR_external_memory_fd", "VK_KHR_external_semaphore_fd"],
    )
}

#[test]
fn required_version_is_vulkan_1_1() {
    assert_eq!(required_vk_version(), 4_198_400);
    assert_eq!(required_vk_version(), (1 << 22) | (1 << 12));
    assert_eq!(required_vk_version(), ash::vk::API_VERSION_1_1);
    assert_eq!(required_vk_version(), ash::vk::make_api_version(0, 1, 1, 0));
    assert_eq!(VK_API_VERSION_1_1, ash::vk::API_VERSION_1_1);
}

#[test]
fn linux_requires_the_fd_extensions() {
    assert_eq!(
        required_vulkan_extensions(HostPlatform::Linux),
        vec!["VK_KHR_external_memory_fd".to_string(), "VK_KHR_external_semaphore_fd".to_string()]
    );
}

#[test]
fn windows_requires_the_win32_extensions() {
    assert_eq!(
        required_vulkan_extensions(HostPlatform::Windows),
        vec![
            "VK_KHR_external_memory_win32".to_string(),
            "VK_KHR_external_semaphore_win32".to_string()
        ]
    );
}

#[test]
fn apple_requires_the_metal_objects_extension() {
    assert_eq!(
        required_vulkan_extensions(HostPlatform::Apple),
        vec!["VK_EXT_metal_objects".to_string()]
    );
}

#[test]
fn other_hosts_require_nothing() {
    assert!(required_vulkan_extensions(HostPlatform::Other).is_empty());
}

#[test]
fn required_extensions_are_the_names_that_ash_defines() {
    let linux = required_vulkan_extensions(HostPlatform::Linux);
    assert_eq!(linux[0], ash::khr::external_memory_fd::NAME.to_str().unwrap());
    assert_eq!(linux[1], ash::khr::external_semaphore_fd::NAME.to_str().unwrap());
    let windows = required_vulkan_extensions(HostPlatform::Windows);
    assert_eq!(windows[0], ash::khr::external_memory_win32::NAME.to_str().unwrap());
    assert_eq!(windows[1], ash::khr::external_semaphore_win32::NAME.to_str().unwrap());
    let apple = required_vulkan_extensions(HostPlatform::Apple);
    assert_eq!(apple[0], ash::ext::metal_objects::NAME.to_str().unwrap());
}

#[test]
fn snapshot_finds_the_extensions_it_reports() {
    let snapshot = adapter(Backend::Vulkan, 0, &["VK_KHR_swapchain", "VK_KHR_external_memory_fd"]);
    assert!(snapshot.supports_extension(&"VK_KHR_swapchain".to_string()));
    assert!(snapshot.supports_extension(&"VK_KHR_external_memory_fd".to_string()));
    assert!(!snapshot.supports_extension(&"VK_KHR_external_semaphore_fd".to_string()));
    assert!(!snapshot.supports_extension(&"VK_KHR_external_memory".to_string()));
    assert!(!snapshot.supports_extension(&"".to_string()));
    assert!(!adapter(Backend::Vulkan, 0, &[]).supports_extension(&"VK_KHR_swapchain".to_string()));
}

#[test]
fn adapter_without_any_export_extension_is_unsupported() {
    let bare = adapter(
        Backend::Vulkan,
        ash::vk::API_VERSION_1_3,
        &["VK_KHR_swapchain", "VK_KHR_maintenance1", "VK_EXT_memory_budget"],
    );
    assert!(!adapter_supports_external_resources(&bare, HostPlatform::Linux));
    assert!(!adapter_supports_external_resources(&bare, HostPlatform::Windows));
    assert!(!adapter_supports_external_resources(&bare, HostPlatform::Apple));
    assert!(!adapter_supports_external_resources(&bare, HostPlatform::Other));
    let empty = adapter(Backend::Vulkan, ash::vk::API_VERSION_1_3, &[]);
    assert!(!adapter_supports_external_resources(&empty, HostPlatform::Linux));
    assert!(!adapter_supports_external_resources(&empty, HostPlatform::Windows));
    assert!(!adapter_supports_external_resources(&empty, HostPlatform::Apple));
}

#[test]
fn adapter_with_the_full_set_is_supported() {
    assert!(adapter_supports_external_resources(&linux_adapter(), HostPlatform::Linux));
    let windows = adapter(
        Backend::Vulkan,
        VK_API_VERSION_1_1,
        &["VK_KHR_external_semaphore_win32", "VK_KHR_external_memory_win32"],
    );
    assert!(adapter_supports_external_resources(&windows, HostPlatform::Windows));
    let apple = adapter(Backend::Vulkan, VK_API_VERSION_1_1, &["VK_EXT_metal_objects"]);
    assert!(adapter_supports_external_resources(&apple, HostPlatform::Apple));
}

#[test]
fn removing_one_required_extension_flips_the_answer() {
    let full = linux_adapter();
    assert!(adapter_supports_external_resources(&full, HostPlatform::Linux));
    for removed in required_vulkan_extensions(HostPlatform::Linux) {
        let mut less = full.clone();
        less.extensions.retain(|name| *name != removed);
        assert!(!adapter_supports_external_resources(&less, HostPlatform::Linux));
    }
    let windows = adapter(
        Backend::Vulkan,
        VK_API_VERSION_1_1,
        &["VK_KHR_external_memory_win32", "VK_KHR_external_semaphore_win32"],
    );
    for removed in required_vulkan_extensions(HostPlatform::Windows) {
        let mut less = windows.clone();
        less.extensions.retain(|name| *name != removed);
        assert!(!adapter_supports_external_resources(&less, HostPlatform::Windows));
    }
    let apple = adapter(Backend::Vulkan, VK_API_VERSION_1_1, &[]);
    assert!(!adapter_supports_external_resources(&apple, HostPlatform::Apple));
}

#[test]
fn extensions_of_another_host_do_not_count() {
    assert!(!adapter_supports_external_resources(&linux_adapter(), HostPlatform::Windows));
    assert!(!adapter_supports_external_resources(&linux_adapter(), HostPlatform::Apple));
    let windows = adapter(
        Backend::Vulkan,
        VK_API_VERSION_1_1,
        &["VK_KHR_external_memory_win32", "VK_KHR_external_semaphore_win32"],
    );
    assert!(!adapter_supports_external_resources(&windows, HostPlatform::Linux));
}

#[test]
fn further_extensions_and_repeats_do_no_harm() {
    let rich = adapter(
        Backend::Vulkan,
        ash::vk::API_VERSION_1_2,
        &[
            "VK_KHR_swapchain",
            "VK_KHR_external_semaphore_fd",
            "VK_KHR_external_semaphore_fd",
            "VK_KHR_external_memory_win32",
            "VK_KHR_external_memory_fd",
        ],
    );
    assert!(adapter_supports_external_resources(&rich, HostPlatform::Linux));
    assert!(!adapter_supports_external_resources(&rich, HostPlatform::Windows));
}

#[test]
fn only_vulkan_adapters_are_supported() {
    let names = ["VK_KHR_external_memory_fd", "VK_KHR_external_semaphore_fd"];
    for backend in
        [Backend::Noop, Backend::Metal, Backend::Dx12, Backend::Gl, Backend::BrowserWebGpu]
    {
        let other = adapter(backend, ash::vk::API_VERSION_1_3, &names);
        assert!(!adapter_supports_external_resources(&other, HostPlatform::Linux));
    }
    let vulkan = adapter(Backend::Vulkan, ash::vk::API_VERSION_1_3, &names);
    assert!(adapter_supports_external_resources(&vulkan, HostPlatform::Linux));
}

#[test]
fn api_version_below_1_1_is_unsupported() {
    let names = ["VK_KHR_external_memory_fd", "VK_KHR_external_semaphore_fd"];
    let v1_0 = adapter(Backend::Vulkan, ash::vk::API_VERSION_1_0, &names);
    assert!(!adapter_supports_external_resources(&v1_0, HostPlatform::Linux));
    let just_below = adapter(Backend::Vulkan, VK_API_VERSION_1_1 - 1, &names);
    assert!(!adapter_supports_external_resources(&just_below, HostPlatform::Linux));
    let zero = adapter(Backend::Vulkan, 0, &names);
    assert!(!adapter_supports_external_resources(&zero, HostPlatform::Linux));
    let exact = adapter(Backend::Vulkan, VK_API_VERSION_1_1, &names);
    assert!(adapter_supports_external_resources(&exact, HostPlatform::Linux));
    let patch = adapter(Backend::Vulkan, ash::vk::make_api_version(0, 1, 1, 7), &names);
    assert!(adapter_supports_external_resources(&patch, HostPlatform::Linux));
    let highest = adapter(Backend::Vulkan, u32::MAX, &names);
    assert!(adapter_supports_external_resources(&highest, HostPlatform::Linux));
}

#[test]
fn hosts_without_an_extension_set_are_unsupported() {
    let everything = adapter(
        Backend::Vulkan,
        ash::vk::API_VERSION_1_3,
        &[
            "VK_KHR_external_memory_fd",
            "VK_KHR_external_semaphore_fd",
            "VK_KHR_external_memory_win32",
            "VK_KHR_external_semaphore_win32",
            "VK_EXT_metal_objects",
        ],
    );
    assert!(!adapter_supports_external_resources(&everything, HostPlatform::Other));
    assert!(adapter_supports_external_resources(&everything, HostPlatform::Linux));
    assert!(adapter_supports_external_resources(&everything, HostPlatform::Windows));
    assert!(adapter_supports_external_resources(&everything, HostPlatform::Apple));
}

#[test]
fn the_answer_is_the_same_each_time() {
    let snapshot = linux_adapter();
    let first = adapter_supports_external_resources(&snapshot, HostPlatform::Linux);
    let second = adapter_supports_external_resources(&snapshot, HostPlatform::Linux);
    assert_eq!(first, second);
    assert_eq!(snapshot.extensions.len(), 2);
}
