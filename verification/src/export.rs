//! The resource exporter: the sequence of native calls that turns a new
//! buffer into a local resource plus an import descriptor.
//!
//! The exporter makes no native call itself. It runs as a session: the
//! session names the next call, the caller performs it and hands back the
//! driver's reply, and the session decides what follows. The first failure
//! ends the export; before the error is reported, the session has the
//! objects that the export created released again, the memory before the
//! buffer.

use crate::capability::supports_export;
use crate::device::{ExportDevice, ExportDeviceView};
use crate::error::Error;
use crate::handle::{
    BufferImportInfo, MemoryImportInfo, RawLinuxFd, RawResourceHandle, RawWin32Handle,
};
use crate::memory::{first_device_local, select_memory_type, MemoryRequirements};
use crate::native::{
    handle_type_opaque_fd, handle_type_opaque_win32, VK_HANDLE_TYPE_OPAQUE_FD,
    VK_HANDLE_TYPE_OPAQUE_WIN32,
};
use crate::platform::{Backend, HostPlatform};
use crate::usage::{native_buffer_usage, translate_usage, unsupported_usage_bits};
use vstd::prelude::*;

verus! {

/// A native buffer object, by its raw handle.
#[derive(Clone, Copy, Debug, PartialEq, Eq, Hash, Structural)]
pub struct NativeBuffer(pub u64);

/// A native memory object, by its raw handle.
#[derive(Clone, Copy, Debug, PartialEq, Eq, Hash, Structural)]
pub struct NativeMemory(pub u64);

/// The buffer that an export is asked for.
#[derive(Clone, Copy, Debug, PartialEq, Eq, Hash, Structural)]
pub struct BufferDescriptor {
    /// The size of the buffer, in bytes.
    pub size: u64,
    /// The requested usages, one bit each.
    pub usage: u32,
}

/// How a buffer is shared between queue families.
#[derive(Clone, Copy, Debug, PartialEq, Eq, Hash, Structural)]
pub enum SharingMode {
    Exclusive,
    Concurrent,
}

/// The kind of OS handle that an export produces.
#[derive(Clone, Copy, Debug, PartialEq, Eq, Hash, Structural)]
pub enum HandleKind {
    /// A file descriptor.
    Fd,
    /// A Win32 kernel handle.
    Win32,
}

/// A native call that the session asks its caller to perform.
#[derive(Clone, Copy, Debug, PartialEq, Eq, Hash, Structural)]
pub enum DriverCall {
    /// Create a buffer object.
    CreateBuffer { size: u64, usage_flags: u32, sharing: SharingMode },
    /// Query the memory requirements of `buffer`.
    GetMemoryRequirements { buffer: NativeBuffer },
    /// Allocate `size` bytes from the memory type `memory_type_index`, as a
    /// dedicated allocation for `dedicated_to`, exportable as the handle
    /// types `export_handle_types`.
    AllocateMemory {
        size: u64,
        memory_type_index: usize,
        dedicated_to: NativeBuffer,
        export_handle_types: u32,
    },
    /// Bind `memory` to `buffer` at `offset`.
    BindMemory { buffer: NativeBuffer, memory: NativeMemory, offset: u64 },
    /// Export `memory` as a file descriptor.
    ExportFd { memory: NativeMemory, handle_type: u32 },
    /// Export `memory` as a Win32 kernel handle.
    ExportWin32Handle { memory: NativeMemory, handle_type: u32 },
    /// Free `memory`.
    FreeMemory { memory: NativeMemory },
    /// Destroy `buffer`.
    DestroyBuffer { buffer: NativeBuffer },
}

/// What the driver answered to a call.
#[derive(Clone, Copy, Debug, PartialEq, Eq, Hash, Structural)]
pub enum DriverReply {
    BufferCreated(NativeBuffer),
    MemoryRequirements(MemoryRequirements),
    MemoryAllocated(NativeMemory),
    MemoryBound,
    FdExported(i32),
    Win32HandleExported(isize),
    /// The object named in the call is gone.
    Released,
    /// The call failed.
    Failed,
}

/// How far an export has come, with the objects it has created so far.
#[derive(Clone, Copy, Debug, PartialEq, Eq, Hash, Structural)]
pub enum Stage {
    CreatingBuffer,
    QueryingRequirements { buffer: NativeBuffer },
    AllocatingMemory {
        buffer: NativeBuffer,
        requirements: MemoryRequirements,
        memory_type_index: usize,
    },
    BindingMemory { buffer: NativeBuffer, requirements: MemoryRequirements, memory: NativeMemory },
    ExportingHandle {
        buffer: NativeBuffer,
        requirements: MemoryRequirements,
        memory: NativeMemory,
    },
    /// The export has failed with `error`; the memory is being freed, and
    /// the buffer is still to be destroyed.
    FreeingMemory { buffer: NativeBuffer, memory: NativeMemory, error: Error },
    /// The export has failed with `error`; the buffer is being destroyed.
    DestroyingBuffer { buffer: NativeBuffer, error: Error },
}

/// The state of an export that is under way.
#[derive(Clone, Copy, Debug, PartialEq, Eq, Hash, Structural)]
pub struct SessionState {
    /// The size of the buffer that was asked for.
    pub size: u64,
    /// The native usage flags of the buffer.
    pub usage_flags: u32,
    /// The kind of handle that the export produces.
    pub handle_kind: HandleKind,
    /// The memory type to allocate from, if the device has a usable one.
    pub memory_type: Option<usize>,
    pub stage: Stage,
}

/// What a successful export hands out: the native buffer and the memory
/// bound to it, for the caller to wrap into its local buffer object, and
/// the descriptor for an importer.
///
/// The handle in the descriptor lives on its own: destroying the local
/// buffer does not take it back from an importer, and closing it does not
/// touch the local buffer.
#[derive(Clone, Copy, Debug)]
pub struct ExportedBuffer {
    pub buffer: NativeBuffer,
    pub memory: NativeMemory,
    /// Where in `memory` the buffer starts.
    pub offset: u64,
    /// The size of the memory behind the buffer.
    pub size: u64,
    pub import_info: BufferImportInfo,
}

/// An export that is under way. Only [`create_and_export_buffer`] makes
/// one.
#[derive(Debug)]
pub struct ExportSession {
    state: SessionState,
}

impl View for ExportSession {
    type V = SessionState;

    closed spec fn view(&self) -> SessionState {
        self.state
    }
}

/// Where an export stands after a step, as a value.
pub enum StepView {
    Next(SessionState),
    Done(Result<ExportedBuffer, Error>),
}

/// Where an export stands after a step: it either waits for a native call,
/// or has ended.
#[derive(Debug)]
pub enum ExportStep {
    /// The caller performs `session.call()` and advances the session with
    /// the reply.
    Next(ExportSession),
    Done(Result<ExportedBuffer, Error>),
}

impl View for ExportStep {
    type V = StepView;

    open spec fn view(&self) -> StepView {
        match *self {
            ExportStep::Next(session) => StepView::Next(session@),
            ExportStep::Done(result) => StepView::Done(result),
        }
    }
}

/// The kind of handle that an export on `host` produces. Export is worked
/// out for Windows and Linux only.
pub open spec fn exported_handle_kind(host: HostPlatform) -> Option<HandleKind> {
    match host {
        HostPlatform::Windows => Some(HandleKind::Win32),
        HostPlatform::Linux => Some(HandleKind::Fd),
        _ => None,
    }
}

/// The native handle type that stands for `kind`.
pub open spec fn handle_type_bits(kind: HandleKind) -> u32 {
    match kind {
        HandleKind::Fd => VK_HANDLE_TYPE_OPAQUE_FD,
        HandleKind::Win32 => VK_HANDLE_TYPE_OPAQUE_WIN32,
    }
}

/// The handle that `reply` carries, if it is of the kind `kind`.
pub open spec fn exported_handle(kind: HandleKind, reply: DriverReply) -> Option<
    RawResourceHandle,
> {
    match (kind, reply) {
        (HandleKind::Fd, DriverReply::FdExported(fd)) => Some(
            RawResourceHandle::LinuxFd(RawLinuxFd::spec_new(fd)),
        ),
        (HandleKind::Win32, DriverReply::Win32HandleExported(handle)) => Some(
            RawResourceHandle::Win32Handle(RawWin32Handle::spec_new(handle)),
        ),
        _ => None,
    }
}

/// What an export of `buffer` on `memory` hands out once `handle` has been
/// exported: the buffer starts at offset 0 of a dedicated allocation of
/// the required size and alignment.
pub open spec fn exported_buffer(
    buffer: NativeBuffer,
    requirements: MemoryRequirements,
    memory: NativeMemory,
    handle: RawResourceHandle,
) -> ExportedBuffer {
    ExportedBuffer {
        buffer,
        memory,
        offset: 0,
        size: requirements.size,
        import_info: BufferImportInfo {
            memory: MemoryImportInfo::spec_new(
                handle,
                0,
                requirements.size,
                requirements.alignment,
            ),
        },
    }
}

impl SessionState {
    /// The same export at another stage.
    pub open spec fn at(self, stage: Stage) -> SessionState {
        SessionState { stage, ..self }
    }

    /// The native call that the export waits for.
    pub open spec fn pending_call(self) -> DriverCall {
        match self.stage {
            Stage::CreatingBuffer => DriverCall::CreateBuffer {
                size: self.size,
                usage_flags: self.usage_flags,
                sharing: SharingMode::Exclusive,
            },
            Stage::QueryingRequirements { buffer } => DriverCall::GetMemoryRequirements { buffer },
            Stage::AllocatingMemory { buffer, requirements, memory_type_index } => {
                DriverCall::AllocateMemory {
                    size: requirements.size,
                    memory_type_index,
                    dedicated_to: buffer,
                    export_handle_types: handle_type_bits(self.handle_kind),
                }
            },
            Stage::BindingMemory { buffer, requirements, memory } => DriverCall::BindMemory {
                buffer,
                memory,
                offset: 0,
            },
            Stage::ExportingHandle { buffer, requirements, memory } => match self.handle_kind {
                HandleKind::Fd => DriverCall::ExportFd {
                    memory,
                    handle_type: handle_type_bits(self.handle_kind),
                },
                HandleKind::Win32 => DriverCall::ExportWin32Handle {
                    memory,
                    handle_type: handle_type_bits(self.handle_kind),
                },
            },
            Stage::FreeingMemory { buffer, memory, error } => DriverCall::FreeMemory { memory },
            Stage::DestroyingBuffer { buffer, error } => DriverCall::DestroyBuffer { buffer },
        }
    }

    /// The export fails with `error` while it holds `buffer` alone: the
    /// buffer is destroyed next.
    pub open spec fn fail_with_buffer(self, buffer: NativeBuffer, error: Error) -> StepView {
        StepView::Next(self.at(Stage::DestroyingBuffer { buffer, error }))
    }

    /// The export fails with `error` while it holds `buffer` and `memory`:
    /// the memory is freed next.
    pub open spec fn fail_with_memory(
        self,
        buffer: NativeBuffer,
        memory: NativeMemory,
        error: Error,
    ) -> StepView {
        StepView::Next(self.at(Stage::FreeingMemory { buffer, memory, error }))
    }

    /// What follows when the driver answers the pending call with `reply`.
    /// A reply that is no answer to the pending call counts as its
    /// failure; a release cannot fail, so any reply confirms it.
    pub open spec fn next_step(self, reply: DriverReply) -> StepView {
        match self.stage {
            Stage::CreatingBuffer => match reply {
                DriverReply::BufferCreated(buffer) => StepView::Next(
                    self.at(Stage::QueryingRequirements { buffer }),
                ),
                _ => StepView::Done(Err(Error::BufferCreationFailed)),
            },
            Stage::QueryingRequirements { buffer } => match (reply, self.memory_type) {
                (DriverReply::MemoryRequirements(requirements), Some(memory_type_index)) => {
                    StepView::Next(
                        self.at(
                            Stage::AllocatingMemory { buffer, requirements, memory_type_index },
                        ),
                    )
                },
                _ => self.fail_with_buffer(buffer, Error::MemoryAllocationFailed),
            },
            Stage::AllocatingMemory { buffer, requirements, memory_type_index } => match reply {
                DriverReply::MemoryAllocated(memory) => StepView::Next(
                    self.at(Stage::BindingMemory { buffer, requirements, memory }),
                ),
                _ => self.fail_with_buffer(buffer, Error::MemoryAllocationFailed),
            },
            Stage::BindingMemory { buffer, requirements, memory } => match reply {
                DriverReply::MemoryBound => StepView::Next(
                    self.at(Stage::ExportingHandle { buffer, requirements, memory }),
                ),
                _ => self.fail_with_memory(buffer, memory, Error::BindFailed),
            },
            Stage::ExportingHandle { buffer, requirements, memory } => match exported_handle(
                self.handle_kind,
                reply,
            ) {
                Some(handle) => StepView::Done(
                    Ok(exported_buffer(buffer, requirements, memory, handle)),
                ),
                None => self.fail_with_memory(buffer, memory, Error::HandleExportFailed),
            },
            Stage::FreeingMemory { buffer, memory, error } => self.fail_with_buffer(buffer, error),
            Stage::DestroyingBuffer { buffer, error } => StepView::Done(Err(error)),
        }
    }
}

/// The state in which an export of `descriptor` on `device` starts: the
/// buffer is to be created with the native usage flags of the request, and
/// its memory will come from the first device-local memory type.
pub open spec fn initial_state(
    device: ExportDeviceView,
    descriptor: BufferDescriptor,
) -> SessionState
    recommends
        exported_handle_kind(device.host) is Some,
{
    SessionState {
        size: descriptor.size,
        usage_flags: native_buffer_usage(descriptor.usage),
        handle_kind: exported_handle_kind(device.host)->Some_0,
        memory_type: first_device_local(device.memory_types),
        stage: Stage::CreatingBuffer,
    }
}

/// How an export of `descriptor` on `device` begins: a request with a
/// usage that no exported buffer can have ends at once, before any native
/// object exists; any other request starts with the creation of the
/// buffer.
pub open spec fn begin_export(device: ExportDeviceView, descriptor: BufferDescriptor) -> StepView
    recommends
        exported_handle_kind(device.host) is Some,
{
    if unsupported_usage_bits(descriptor.usage) != 0 {
        StepView::Done(Err(Error::UnsupportedUsage(unsupported_usage_bits(descriptor.usage))))
    } else {
        StepView::Next(initial_state(device, descriptor))
    }
}

/// Begins the export of a new buffer on `device`.
///
/// The device runs on Vulkan, on a host for which export is worked out.
/// Every device was opened on an adapter that can take part in export, so
/// no export begins on any other.
pub fn create_and_export_buffer(
    backend: Backend,
    device: &ExportDevice,
    descriptor: &BufferDescriptor,
) -> (step: ExportStep)
    requires
        backend == Backend::Vulkan,
        exported_handle_kind(device@.host) is Some,
    ensures
        step@ == begin_export(device@, *descriptor),
        supports_export(device@.adapter, device@.host),
{
    let handle_kind = match device.host() {
        HostPlatform::Windows => HandleKind::Win32,
        _ => HandleKind::Fd,
    };
    let usage_flags = match translate_usage(descriptor.usage) {
        Ok(flags) => flags,
        Err(error) => {
            return ExportStep::Done(Err(error));
        },
    };
    let memory_type = select_memory_type(device.memory_types());
    ExportStep::Next(
        ExportSession {
            state: SessionState {
                size: descriptor.size,
                usage_flags,
                handle_kind,
                memory_type,
                stage: Stage::CreatingBuffer,
            },
        },
    )
}

impl ExportSession {
    /// The native call to perform next.
    pub fn call(&self) -> (call: DriverCall)
        ensures
            call == self@.pending_call(),
    {
        match self.state.stage {
            Stage::CreatingBuffer => DriverCall::CreateBuffer {
                size: self.state.size,
                usage_flags: self.state.usage_flags,
                sharing: SharingMode::Exclusive,
            },
            Stage::QueryingRequirements { buffer } => DriverCall::GetMemoryRequirements { buffer },
            Stage::AllocatingMemory { buffer, requirements, memory_type_index } => {
                DriverCall::AllocateMemory {
                    size: requirements.size,
                    memory_type_index,
                    dedicated_to: buffer,
                    export_handle_types: self.handle_type(),
                }
            },
            Stage::BindingMemory { buffer, requirements: _, memory } => DriverCall::BindMemory {
                buffer,
                memory,
                offset: 0,
            },
            Stage::ExportingHandle { buffer: _, requirements: _, memory } => {
                match self.state.handle_kind {
                    HandleKind::Fd => DriverCall::ExportFd {
                        memory,
                        handle_type: self.handle_type(),
                    },
                    HandleKind::Win32 => DriverCall::ExportWin32Handle {
                        memory,
                        handle_type: self.handle_type(),
                    },
                }
            },
            Stage::FreeingMemory { buffer: _, memory, error: _ } => DriverCall::FreeMemory {
                memory,
            },
            Stage::DestroyingBuffer { buffer, error: _ } => DriverCall::DestroyBuffer { buffer },
        }
    }

    /// The native handle type of the handles that this export produces.
    fn handle_type(&self) -> (bits: u32)
        ensures
            bits == handle_type_bits(self@.handle_kind),
    {
        match self.state.handle_kind {
            HandleKind::Fd => handle_type_opaque_fd(),
            HandleKind::Win32 => handle_type_opaque_win32(),
        }
    }

    /// Takes the driver's reply to the pending call and decides what
    /// follows.
    pub fn advance(self, reply: DriverReply) -> (step: ExportStep)
        ensures
            step@ == self@.next_step(reply),
    {
        let state = self.state;
        match state.stage {
            Stage::CreatingBuffer => match reply {
                DriverReply::BufferCreated(buffer) => Self::at(
                    state,
                    Stage::QueryingRequirements { buffer },
                ),
                _ => ExportStep::Done(Err(Error::BufferCreationFailed)),
            },
            Stage::QueryingRequirements { buffer } => match (reply, state.memory_type) {
                (DriverReply::MemoryRequirements(requirements), Some(memory_type_index)) => {
                    Self::at(
                        state,
                        Stage::AllocatingMemory { buffer, requirements, memory_type_index },
                    )
                },
                _ => Self::at(
                    state,
                    Stage::DestroyingBuffer { buffer, error: Error::MemoryAllocationFailed },
                ),
            },
            Stage::AllocatingMemory { buffer, requirements, memory_type_index: _ } => match reply {
                DriverReply::MemoryAllocated(memory) => Self::at(
                    state,
                    Stage::BindingMemory { buffer, requirements, memory },
                ),
                _ => Self::at(
                    state,
                    Stage::DestroyingBuffer { buffer, error: Error::MemoryAllocationFailed },
                ),
            },
            Stage::BindingMemory { buffer, requirements, memory } => match reply {
                DriverReply::MemoryBound => Self::at(
                    state,
                    Stage::ExportingHandle { buffer, requirements, memory },
                ),
                _ => Self::at(
                    state,
                    Stage::FreeingMemory { buffer, memory, error: Error::BindFailed },
                ),
            },
            Stage::ExportingHandle { buffer, requirements, memory } => {
                let handle = match (state.handle_kind, reply) {
                    (HandleKind::Fd, DriverReply::FdExported(fd)) => Some(
                        RawResourceHandle::LinuxFd(RawLinuxFd::new(fd)),
                    ),
                    (HandleKind::Win32, DriverReply::Win32HandleExported(handle)) => Some(
                        RawResourceHandle::Win32Handle(RawWin32Handle::new(handle)),
                    ),
                    _ => None,
                };
                match handle {
                    Some(handle) => ExportStep::Done(
                        Ok(
                            ExportedBuffer {
                                buffer,
                                memory,
                                offset: 0,
                                size: requirements.size,
                                import_info: BufferImportInfo {
                                    memory: MemoryImportInfo::new(
                                        handle,
                                        0,
                                        requirements.size,
                                        requirements.alignment,
                                    ),
                                },
                            },
                        ),
                    ),
                    None => Self::at(
                        state,
                        Stage::FreeingMemory { buffer, memory, error: Error::HandleExportFailed },
                    ),
                }
            },
            Stage::FreeingMemory { buffer, memory: _, error } => Self::at(
                state,
                Stage::DestroyingBuffer { buffer, error },
            ),
            Stage::DestroyingBuffer { buffer: _, error } => ExportStep::Done(Err(error)),
        }
    }

    /// The export goes on at `stage`.
    fn at(state: SessionState, stage: Stage) -> (step: ExportStep)
        ensures
            step@ == StepView::Next(state.at(stage)),
    {
        ExportStep::Next(
            ExportSession {
                state: SessionState {
                    size: state.size,
                    usage_flags: state.usage_flags,
                    handle_kind: state.handle_kind,
                    memory_type: state.memory_type,
                    stage,
                },
            },
        )
    }
}

} // verus!
