//! The device factory: opening a device that carries the extensions which
//! the capability prober checked for.
//!
//! The native open call is made by the caller. This module decides what it
//! is asked to enable, and turns its outcome into a device that exports
//! can run on.

use crate::capability::{
    adapter_supports_external_resources, required_extension_names, required_vulkan_extensions,
    supports_export, AdapterCapabilities, AdapterView,
};
use crate::error::Error;
use crate::memory::MemoryType;
use crate::platform::HostPlatform;
use vstd::prelude::*;

verus! {

/// A device that is about to be opened, as a value.
pub struct DeviceOpeningView {
    /// The adapter that the device is opened on.
    pub adapter: AdapterView,
    pub host: HostPlatform,
}

/// A device that is about to be opened. Only an adapter that can take part
/// in export gets one.
pub struct DeviceOpening {
    adapter: Ghost<AdapterView>,
    host: HostPlatform,
}

impl View for DeviceOpening {
    type V = DeviceOpeningView;

    closed spec fn view(&self) -> DeviceOpeningView {
        DeviceOpeningView { adapter: self.adapter@, host: self.host }
    }
}

/// An opened device, as a value.
pub struct ExportDeviceView {
    /// The adapter that the device was opened on.
    pub adapter: AdapterView,
    pub host: HostPlatform,
    /// The device's memory property list.
    pub memory_types: Seq<MemoryType>,
}

/// An opened device with the extensions for export enabled: the only thing
/// an export can run on.
pub struct ExportDevice {
    adapter: Ghost<AdapterView>,
    host: HostPlatform,
    memory_types: Vec<MemoryType>,
}

impl View for ExportDevice {
    type V = ExportDeviceView;

    closed spec fn view(&self) -> ExportDeviceView {
        ExportDeviceView {
            adapter: self.adapter@,
            host: self.host,
            memory_types: self.memory_types@,
        }
    }
}

/// Starts the opening of a device on `adapter`.
///
/// The caller has confirmed that the adapter can take part in export on
/// `host`.
pub fn create_device(adapter: &AdapterCapabilities, host: HostPlatform) -> (opening: DeviceOpening)
    requires
        supports_export(adapter@, host),
    ensures
        opening@ == (DeviceOpeningView { adapter: adapter@, host }),
{
    DeviceOpening { adapter: Ghost(adapter@), host }
}

/// Starts the opening of a device on `adapter` if the adapter can take
/// part in export on `host`, and refuses with `CapabilityUnsupported` if
/// it cannot.
pub fn open_device(adapter: &AdapterCapabilities, host: HostPlatform) -> (opening: Result<
    DeviceOpening,
    Error,
>)
    ensures
        supports_export(adapter@, host) ==> (opening matches Ok(o) && o@ == (DeviceOpeningView {
            adapter: adapter@,
            host,
        })),
        !supports_export(adapter@, host) ==> (opening matches Err(e) && e
            == Error::CapabilityUnsupported),
{
    if adapter_supports_external_resources(adapter, host) {
        Ok(create_device(adapter, host))
    } else {
        Err(Error::CapabilityUnsupported)
    }
}

impl DeviceOpening {
    #[verifier::type_invariant]
    spec fn adapter_supports_export(self) -> bool {
        supports_export(self.adapter@, self.host)
    }

    /// The host that the device is opened on. The adapter can take part in
    /// export there.
    pub fn host(&self) -> (host: HostPlatform)
        ensures
            host == self@.host,
            supports_export(self@.adapter, host),
    {
        proof {
            use_type_invariant(self);
        }
        self.host
    }

    /// Adds the extensions that export needs to the list of device
    /// extensions that the native open call is about to enable. What the
    /// list holds already stays as it is, in its order; the required
    /// extensions follow it.
    pub fn enable_extensions(&self, extensions: &mut Vec<String>)
        ensures
            final(extensions).deep_view() == old(extensions).deep_view()
                + required_extension_names(self@.host),
    {
        let ghost before = extensions.deep_view();
        let mut required = required_vulkan_extensions(self.host);
        let ghost added = required@;
        extensions.append(&mut required);
        assert(extensions.deep_view() =~= before + required_extension_names(self@.host)) by {
            assert forall|i: int| 0 <= i < extensions@.len() implies extensions.deep_view()[i] == (
            before + required_extension_names(self@.host))[i] by {
                if i >= before.len() {
                    assert(extensions@[i] == added[i - before.len()]);
                }
            }
        }
    }

    /// Takes the outcome of the native open call: the memory property list
    /// of the device that was opened, or nothing where the driver refused.
    /// A refusal is reported as `DeviceCreationFailed`.
    pub fn finish(self, opened: Option<Vec<MemoryType>>) -> (device: Result<ExportDevice, Error>)
        ensures
            match opened {
                Some(memory_types) => device matches Ok(d) && d@ == (ExportDeviceView {
                    adapter: self@.adapter,
                    host: self@.host,
                    memory_types: memory_types@,
                }),
                None => device matches Err(e) && e == Error::DeviceCreationFailed,
            },
    {
        proof {
            use_type_invariant(&self);
        }
        match opened {
            Some(memory_types) => Ok(
                ExportDevice { adapter: self.adapter, host: self.host, memory_types },
            ),
            None => Err(Error::DeviceCreationFailed),
        }
    }
}

impl ExportDevice {
    #[verifier::type_invariant]
    spec fn adapter_supports_export(self) -> bool {
        supports_export(self.adapter@, self.host)
    }

    /// The host that the device runs on. The adapter that the device was
    /// opened on can take part in export there: no device exists on any
    /// other adapter.
    pub fn host(&self) -> (host: HostPlatform)
        ensures
            host == self@.host,
            supports_export(self@.adapter, host),
    {
        proof {
            use_type_invariant(self);
        }
        self.host
    }

    /// The device's memory property list.
    pub fn memory_types(&self) -> (memory_types: &Vec<MemoryType>)
        ensures
            memory_types@ == self@.memory_types,
    {
        &self.memory_types
    }
}

} // verus!
