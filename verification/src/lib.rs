//! Export of GPU buffers as OS-level shareable handles.
//!
//! A buffer that lives in GPU memory is exported so that a second graphics
//! or compute context, possibly in another process, can bind the same
//! memory without a copy. The library holds the protocol of an export and
//! leaves the native calls to its caller:
//!
//! - [`capability`] decides whether an adapter can take part in export,
//!   from a snapshot of what the adapter reports;
//! - [`device`] plans the opening of a device with the extensions that
//!   export needs, and admits no device on any other adapter;
//! - [`export`] runs one export as a session that names each native call
//!   and decides on the driver's reply what follows;
//! - [`transcript`] states what holds of every run of such a session;
//! - [`handle`] holds the handles and the import descriptors that an
//!   export hands out;
//! - [`usage`] and [`memory`] hold the two choices that an export makes:
//!   the native usage flags of the buffer, and the memory type to allocate
//!   from;
//! - [`native`] holds what the library takes from `ash` and `wgpu`.

pub mod capability;
pub mod device;
pub mod error;
pub mod export;
pub mod handle;
pub mod memory;
pub mod native;
pub mod platform;
pub mod transcript;
pub mod usage;
