//! Where the library runs: the host OS family and the graphics backend.

use vstd::prelude::*;

verus! {

/// The OS family of the host. It decides which extensions export needs and
/// which kind of handle comes out; a deployment fixes it once.
#[derive(Clone, Copy, Debug, PartialEq, Eq, Hash, Structural)]
pub enum HostPlatform {
    Apple,
    Windows,
    Linux,
    /// Any other OS: export is not supported there yet.
    Other,
}

/// The graphics API that drives an adapter.
#[derive(Clone, Copy, Debug, PartialEq, Eq, Hash, Structural)]
pub enum Backend {
    Noop,
    Vulkan,
    Metal,
    Dx12,
    Gl,
    BrowserWebGpu,
}

} // verus!
