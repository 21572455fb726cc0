//! The capability prober: whether an adapter can take part in export.
//!
//! The answer is a function of a snapshot of what the adapter reports and
//! of the host platform. Nothing here talks to a driver.

use crate::platform::{Backend, HostPlatform};
use crate::native::{
    api_version_1_1, ext_metal_objects_name, khr_external_memory_fd_name,
    khr_external_memory_win32_name, khr_external_semaphore_fd_name,
    khr_external_semaphore_win32_name, VK_API_VERSION_1_1,
};
use vstd::prelude::*;

verus! {

/// A snapshot of what an adapter reports about itself.
#[derive(Clone, Debug)]
pub struct AdapterCapabilities {
    /// The backend that drives the adapter.
    pub backend: Backend,
    /// The packed Vulkan API version of the physical device.
    pub api_version: u32,
    /// The names of the device extensions that the physical device
    /// supports, in any order.
    pub extensions: Vec<String>,
}

/// An adapter snapshot as a value: the extensions form a set of names.
pub struct AdapterView {
    pub backend: Backend,
    pub api_version: u32,
    pub extensions: Set<Seq<char>>,
}

impl AdapterView {
    /// The same adapter, no longer reporting the extension `name`.
    pub open spec fn without(self, name: Seq<char>) -> AdapterView {
        AdapterView { extensions: self.extensions.remove(name), ..self }
    }
}

impl View for AdapterCapabilities {
    type V = AdapterView;

    open spec fn view(&self) -> AdapterView {
        AdapterView {
            backend: self.backend,
            api_version: self.api_version,
            extensions: Set::new(
                |name: Seq<char>|
                    exists|i: int|
                        0 <= i < self.extensions@.len() && (#[trigger] self.extensions@[i])@
                            == name,
            ),
        }
    }
}

/// The names of the device extensions that export needs on `host`, in the
/// order in which they are enabled. Empty where export is not supported.
pub open spec fn required_extension_names(host: HostPlatform) -> Seq<Seq<char>> {
    match host {
        HostPlatform::Apple => seq!["VK_EXT_metal_objects"@],
        HostPlatform::Windows => seq![
            "VK_KHR_external_memory_win32"@,
            "VK_KHR_external_semaphore_win32"@,
        ],
        HostPlatform::Linux => seq![
            "VK_KHR_external_memory_fd"@,
            "VK_KHR_external_semaphore_fd"@,
        ],
        HostPlatform::Other => seq![],
    }
}

/// Whether `adapter` can take part in export on `host`: it is driven by
/// Vulkan, its API version has external memory, external semaphores and
/// dedicated allocation in core, the host has a set of required extensions,
/// and the adapter reports every one of them.
pub open spec fn supports_export(adapter: AdapterView, host: HostPlatform) -> bool {
    &&& adapter.backend == Backend::Vulkan
    &&& adapter.api_version >= VK_API_VERSION_1_1
    &&& required_extension_names(host).len() > 0
    &&& forall|i: int|
        0 <= i < required_extension_names(host).len() ==> adapter.extensions.contains(
            #[trigger] required_extension_names(host)[i],
        )
}

/// The lowest Vulkan API version that has external memory, external
/// semaphores, external memory capabilities and dedicated allocation in
/// core.
pub fn required_vk_version() -> (version: u32)
    ensures
        version == VK_API_VERSION_1_1,
{
    api_version_1_1()
}

/// The device extensions that export needs on `host`.
pub fn required_vulkan_extensions(host: HostPlatform) -> (required: Vec<String>)
    ensures
        required.deep_view() == required_extension_names(host),
{
    let mut required: Vec<String> = Vec::new();
    match host {
        HostPlatform::Apple => {
            required.push(ext_metal_objects_name());
        },
        HostPlatform::Windows => {
            required.push(khr_external_memory_win32_name());
            required.push(khr_external_semaphore_win32_name());
        },
        HostPlatform::Linux => {
            required.push(khr_external_memory_fd_name());
            required.push(khr_external_semaphore_fd_name());
        },
        HostPlatform::Other => {},
    }
    assert(required.deep_view() =~= required_extension_names(host));
    required
}

impl AdapterCapabilities {
    /// Whether the adapter reports the extension `name`.
    pub fn supports_extension(&self, name: &String) -> (found: bool)
        ensures
            found == self@.extensions.contains(name@),
    {
        let mut i: usize = 0;
        while i < self.extensions.len()
            invariant
                i <= self.extensions@.len(),
                forall|j: int| 0 <= j < i ==> (#[trigger] self.extensions@[j])@ != name@,
            decreases self.extensions@.len() - i,
        {
            if self.extensions[i] == *name {
                return true;
            }
            i += 1;
        }
        false
    }
}

/// Decides whether `adapter` can take part in export on `host`.
pub fn adapter_supports_external_resources(
    adapter: &AdapterCapabilities,
    host: HostPlatform,
) -> (supported: bool)
    ensures
        supported == supports_export(adapter@, host),
{
    match adapter.backend {
        Backend::Vulkan => {},
        _ => {
            return false;
        },
    }
    if adapter.api_version < required_vk_version() {
        return false;
    }
    let required = required_vulkan_extensions(host);
    if required.len() == 0 {
        return false;
    }
    let mut i: usize = 0;
    while i < required.len()
        invariant
            i <= required@.len(),
            required.deep_view() == required_extension_names(host),
            forall|j: int|
                0 <= j < i ==> adapter@.extensions.contains(
                    #[trigger] required_extension_names(host)[j],
                ),
        decreases required@.len() - i,
    {
        assert(required.deep_view()[i as int] == required@[i as int]@);
        if !adapter.supports_extension(&required[i]) {
            return false;
        }
        i += 1;
    }
    true
}

/// An adapter that Vulkan drives, at a sufficient API version, on a host
/// where export is supported, can take part in export if it reports every
/// required extension; and it no longer can once any one of them is taken
/// out of what it reports.
pub proof fn lemma_support_needs_every_extension(
    adapter: AdapterView,
    host: HostPlatform,
    removed: Seq<char>,
)
    requires
        adapter.backend == Backend::Vulkan,
        adapter.api_version >= VK_API_VERSION_1_1,
        host != HostPlatform::Other,
        forall|i: int|
            0 <= i < required_extension_names(host).len() ==> adapter.extensions.contains(
                #[trigger] required_extension_names(host)[i],
            ),
        required_extension_names(host).contains(removed),
    ensures
        supports_export(adapter, host),
        !supports_export(adapter.without(removed), host),
{
    let i = choose|i: int|
        0 <= i < required_extension_names(host).len() && required_extension_names(host)[i]
            == removed;
    assert(!adapter.without(removed).extensions.contains(required_extension_names(host)[i]));
}

/// On a host without an extension set, and on a backend other than Vulkan,
/// no adapter can take part in export, whatever it reports.
pub proof fn lemma_unsupported_platforms(adapter: AdapterView, host: HostPlatform)
    requires
        host == HostPlatform::Other || adapter.backend != Backend::Vulkan,
    ensures
        !supports_export(adapter, host),
{
}

} // verus!
