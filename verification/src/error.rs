//! Why an export, or the steps that lead to it, can fail.

use vstd::prelude::*;

verus! {

/// The failures of probing, opening and exporting. Each native failure is
/// reported as it came: nothing is retried.
#[derive(Clone, Copy, Debug, PartialEq, Eq, Hash, Structural)]
pub enum Error {
    /// The adapter cannot take part in export on this host.
    CapabilityUnsupported,
    /// The driver refused to open the device.
    DeviceCreationFailed,
    /// The request names usages that an exported buffer cannot have. The
    /// field holds the bits that were refused.
    UnsupportedUsage(u32),
    /// The driver could not create the buffer object.
    BufferCreationFailed,
    /// No memory could be had for the buffer.
    MemoryAllocationFailed,
    /// The driver could not bind the memory to the buffer.
    BindFailed,
    /// The driver could not hand out a shareable handle for the memory.
    HandleExportFailed,
}

} // verus!
