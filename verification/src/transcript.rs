//! Whole exports: the native calls that a session makes along a sequence
//! of driver replies, and what holds of every such run.

use crate::device::ExportDeviceView;
use crate::error::Error;
use crate::export::{
    begin_export, exported_buffer, exported_handle, handle_type_bits, initial_state,
    BufferDescriptor, DriverCall, DriverReply, ExportedBuffer, HandleKind, NativeBuffer,
    NativeMemory, SessionState, SharingMode, Stage, StepView,
};
use crate::handle::{MemoryImportInfo, RawLinuxFd, RawResourceHandle, RawWin32Handle};
use crate::memory::{is_first_device_local, lemma_first_device_local};
use crate::usage::unsupported_usage_bits;
use vstd::prelude::*;

verus! {

/// A run of an export: the calls that were asked for, in order, and how the
/// export ended, if it has.
pub struct Transcript {
    pub calls: Seq<DriverCall>,
    pub outcome: Option<Result<ExportedBuffer, Error>>,
}

/// The run that starts at `step` and takes `replies`, one per call, in
/// order. The reply at an index answers the call at that index. Replies
/// that come after the export has ended are left unread.
pub open spec fn run(step: StepView, replies: Seq<DriverReply>) -> Transcript
    decreases replies.len(),
{
    match step {
        StepView::Done(result) => Transcript { calls: Seq::empty(), outcome: Some(result) },
        StepView::Next(state) => if replies.len() == 0 {
            Transcript { calls: seq![state.pending_call()], outcome: None }
        } else {
            let rest = run(state.next_step(replies[0]), replies.drop_first());
            Transcript { calls: seq![state.pending_call()] + rest.calls, outcome: rest.outcome }
        },
    }
}

/// The buffer that an export at `stage` has created and not yet asked to
/// have destroyed.
spec fn held_buffer(stage: Stage) -> Option<NativeBuffer> {
    match stage {
        Stage::CreatingBuffer => None,
        Stage::QueryingRequirements { buffer } => Some(buffer),
        Stage::AllocatingMemory { buffer, requirements, memory_type_index } => Some(buffer),
        Stage::BindingMemory { buffer, requirements, memory } => Some(buffer),
        Stage::ExportingHandle { buffer, requirements, memory } => Some(buffer),
        Stage::FreeingMemory { buffer, memory, error } => Some(buffer),
        Stage::DestroyingBuffer { buffer, error } => Some(buffer),
    }
}

/// The memory that an export at `stage` has allocated and not yet seen
/// freed.
spec fn held_memory(stage: Stage) -> Option<NativeMemory> {
    match stage {
        Stage::BindingMemory { buffer, requirements, memory } => Some(memory),
        Stage::ExportingHandle { buffer, requirements, memory } => Some(memory),
        Stage::FreeingMemory { buffer, memory, error } => Some(memory),
        _ => None,
    }
}

/// Whether the run `transcript` along `replies` ends with the release of
/// every object that the driver created in it: the last call destroys the
/// buffer, and the call before it frees the memory.
pub open spec fn releases_what_it_created(
    transcript: Transcript,
    replies: Seq<DriverReply>,
) -> bool {
    let calls = transcript.calls;
    &&& forall|i: int|
        0 <= i < calls.len() && i < replies.len() && #[trigger] calls[i] is CreateBuffer
            && replies[i] is BufferCreated ==> calls.last() == (DriverCall::DestroyBuffer {
            buffer: replies[i]->BufferCreated_0,
        })
    &&& forall|i: int|
        0 <= i < calls.len() && i < replies.len() && #[trigger] calls[i] is AllocateMemory
            && replies[i] is MemoryAllocated ==> calls.len() >= 2 && calls[calls.len() - 2] == (
        DriverCall::FreeMemory { memory: replies[i]->MemoryAllocated_0 })
}

/// A run from any state that ends in an error has released what the state
/// held and what the run created.
proof fn lemma_failed_run_releases(state: SessionState, replies: Seq<DriverReply>)
    ensures
        ({
            let t = run(StepView::Next(state), replies);
            t.outcome matches Some(Err(_)) ==> {
                &&& t.calls.len() >= 1
                &&& state.stage is DestroyingBuffer ==> t.calls.len() == 1
                &&& held_buffer(state.stage) matches Some(buffer) ==> t.calls.last() == (
                DriverCall::DestroyBuffer { buffer })
                &&& held_memory(state.stage) matches Some(memory) ==> t.calls.len() >= 2
                    && t.calls[t.calls.len() - 2] == (DriverCall::FreeMemory { memory })
                &&& releases_what_it_created(t, replies)
            }
        }),
    decreases replies.len(),
{
    let t = run(StepView::Next(state), replies);
    if replies.len() > 0 {
        let next = state.next_step(replies[0]);
        let rest_replies = replies.drop_first();
        let rest = run(next, rest_replies);
        assert(t.calls =~= seq![state.pending_call()] + rest.calls);
        match next {
            StepView::Done(result) => {
                assert(rest.calls.len() == 0);
                assert(t.calls.len() == 1);
                assert(t.calls[0] == state.pending_call());
            },
            StepView::Next(following) => {
                lemma_failed_run_releases(following, rest_replies);
                if t.outcome matches Some(Err(_)) {
                    assert(rest.calls.len() >= 1);
                    assert(t.calls.last() == rest.calls.last());
                    if rest.calls.len() >= 2 {
                        assert(t.calls[t.calls.len() - 2] == rest.calls[rest.calls.len() - 2]);
                    } else {
                        assert(t.calls[t.calls.len() - 2] == state.pending_call());
                    }
                    assert forall|i: int|
                        0 <= i < t.calls.len() && i < replies.len()
                            && #[trigger] t.calls[i] is CreateBuffer
                            && replies[i] is BufferCreated implies t.calls.last() == (
                    DriverCall::DestroyBuffer { buffer: replies[i]->BufferCreated_0 }) by {
                        if i > 0 {
                            assert(t.calls[i] == rest.calls[i - 1]);
                            assert(replies[i] == rest_replies[i - 1]);
                        }
                    }
                    assert forall|i: int|
                        0 <= i < t.calls.len() && i < replies.len()
                            && #[trigger] t.calls[i] is AllocateMemory
                            && replies[i] is MemoryAllocated implies t.calls.len() >= 2
                        && t.calls[t.calls.len() - 2] == (DriverCall::FreeMemory {
                        memory: replies[i]->MemoryAllocated_0,
                    }) by {
                        if i > 0 {
                            assert(t.calls[i] == rest.calls[i - 1]);
                            assert(replies[i] == rest_replies[i - 1]);
                        }
                    }
                }
            },
        }
    }
}

/// The number of replies after which an export at `stage` has ended,
/// whatever the replies are.
spec fn calls_left(stage: Stage) -> nat {
    match stage {
        Stage::CreatingBuffer => 7,
        Stage::QueryingRequirements { buffer } => 6,
        Stage::AllocatingMemory { buffer, requirements, memory_type_index } => 5,
        Stage::BindingMemory { buffer, requirements, memory } => 4,
        Stage::ExportingHandle { buffer, requirements, memory } => 3,
        Stage::FreeingMemory { buffer, memory, error } => 2,
        Stage::DestroyingBuffer { buffer, error } => 1,
    }
}

/// A run from any state makes at most `calls_left` calls, and has ended
/// once that many replies are in.
proof fn lemma_run_ends(state: SessionState, replies: Seq<DriverReply>)
    ensures
        run(StepView::Next(state), replies).calls.len() <= calls_left(state.stage),
        replies.len() >= calls_left(state.stage) ==> run(
            StepView::Next(state),
            replies,
        ).outcome is Some,
    decreases replies.len(),
{
    if replies.len() > 0 {
        let next = state.next_step(replies[0]);
        let rest = run(next, replies.drop_first());
        assert(run(StepView::Next(state), replies).calls =~= seq![state.pending_call()]
            + rest.calls);
        match next {
            StepView::Done(result) => {
                assert(rest.calls.len() == 0);
            },
            StepView::Next(following) => {
                lemma_run_ends(following, replies.drop_first());
            },
        }
    }
}

/// How an export that has failed with `error` stands once `replies` are
/// in, where it ends with the reply at index `last`.
pub open spec fn failed_after(
    replies: Seq<DriverReply>,
    last: int,
    error: Error,
) -> Option<Result<ExportedBuffer, Error>> {
    if replies.len() > last {
        Some(Err(error))
    } else {
        None
    }
}

/// Whether `replies` begins with the five replies of a successful export
/// of the handle kind `kind`.
pub open spec fn success_script(kind: HandleKind, replies: Seq<DriverReply>) -> bool {
    &&& replies.len() >= 5
    &&& replies[0] is BufferCreated
    &&& replies[1] is MemoryRequirements
    &&& replies[2] is MemoryAllocated
    &&& replies[3] is MemoryBound
    &&& exported_handle(kind, replies[4]) is Some
}

/// What an export along a success script hands out.
pub open spec fn exported_by_script(kind: HandleKind, replies: Seq<DriverReply>) -> ExportedBuffer
    recommends
        success_script(kind, replies),
{
    exported_buffer(
        replies[0]->BufferCreated_0,
        replies[1]->MemoryRequirements_0,
        replies[2]->MemoryAllocated_0,
        exported_handle(kind, replies[4])->Some_0,
    )
}

/// The five calls of a successful export along `replies`.
pub open spec fn success_calls(state: SessionState, replies: Seq<DriverReply>) -> Seq<DriverCall>
    recommends
        state.stage is CreatingBuffer,
        state.memory_type is Some,
        success_script(state.handle_kind, replies),
{
    let buffer = replies[0]->BufferCreated_0;
    let requirements = replies[1]->MemoryRequirements_0;
    let memory = replies[2]->MemoryAllocated_0;
    seq![
        DriverCall::CreateBuffer {
            size: state.size,
            usage_flags: state.usage_flags,
            sharing: SharingMode::Exclusive,
        },
        DriverCall::GetMemoryRequirements { buffer },
        DriverCall::AllocateMemory {
            size: requirements.size,
            memory_type_index: state.memory_type->Some_0,
            dedicated_to: buffer,
            export_handle_types: handle_type_bits(state.handle_kind),
        },
        DriverCall::BindMemory { buffer, memory, offset: 0 },
        match state.handle_kind {
            HandleKind::Fd => DriverCall::ExportFd {
                memory,
                handle_type: handle_type_bits(state.handle_kind),
            },
            HandleKind::Win32 => DriverCall::ExportWin32Handle {
                memory,
                handle_type: handle_type_bits(state.handle_kind),
            },
        },
    ]
}

/// How an export from its first stage stands once `replies` are in.
///
/// The export fails at the first reply that is not the success of its
/// call: with `BufferCreationFailed` at once, as nothing is to be
/// released; with `MemoryAllocationFailed` once the buffer is destroyed,
/// where no requirements come in, the device has no usable memory type or
/// no memory is allocated; with `BindFailed` or `HandleExportFailed` once
/// the memory is freed and the buffer destroyed. Along a success script it
/// succeeds with the fifth reply. Until then it has no outcome.
pub open spec fn outcome_along(state: SessionState, replies: Seq<DriverReply>) -> Option<
    Result<ExportedBuffer, Error>,
>
    recommends
        state.stage is CreatingBuffer,
{
    if replies.len() < 1 {
        None
    } else if !(replies[0] is BufferCreated) {
        Some(Err(Error::BufferCreationFailed))
    } else if replies.len() < 2 {
        None
    } else if !(replies[1] is MemoryRequirements) || state.memory_type is None {
        failed_after(replies, 2, Error::MemoryAllocationFailed)
    } else if replies.len() < 3 {
        None
    } else if !(replies[2] is MemoryAllocated) {
        failed_after(replies, 3, Error::MemoryAllocationFailed)
    } else if replies.len() < 4 {
        None
    } else if !(replies[3] is MemoryBound) {
        failed_after(replies, 5, Error::BindFailed)
    } else if replies.len() < 5 {
        None
    } else if exported_handle(state.handle_kind, replies[4]) is None {
        failed_after(replies, 6, Error::HandleExportFailed)
    } else {
        Some(Ok(exported_by_script(state.handle_kind, replies)))
    }
}

/// A run from the destruction of the buffer ends with the first reply.
proof fn lemma_outcome_from_destroying(state: SessionState, replies: Seq<DriverReply>)
    requires
        state.stage is DestroyingBuffer,
    ensures
        run(StepView::Next(state), replies).outcome == failed_after(
            replies,
            0,
            state.stage->DestroyingBuffer_error,
        ),
{
    if replies.len() > 0 {
        let rest = run(state.next_step(replies[0]), replies.drop_first());
        assert(rest.outcome == Some(
            Err::<ExportedBuffer, Error>(state.stage->DestroyingBuffer_error),
        ));
    }
}

/// A run from the release of the memory ends with the second reply.
proof fn lemma_outcome_from_freeing(state: SessionState, replies: Seq<DriverReply>)
    requires
        state.stage is FreeingMemory,
    ensures
        run(StepView::Next(state), replies).outcome == failed_after(
            replies,
            1,
            state.stage->FreeingMemory_error,
        ),
{
    if replies.len() > 0 {
        match state.next_step(replies[0]) {
            StepView::Next(following) => {
                lemma_outcome_from_destroying(following, replies.drop_first());
            },
            StepView::Done(result) => {},
        }
    }
}

/// How a run from the export of the handle ends.
proof fn lemma_outcome_from_exporting(state: SessionState, replies: Seq<DriverReply>)
    requires
        state.stage is ExportingHandle,
    ensures
        ({
            let t = run(StepView::Next(state), replies);
            let handle = exported_handle(state.handle_kind, replies[0]);
            let exported = exported_buffer(
                state.stage->ExportingHandle_buffer,
                state.stage->ExportingHandle_requirements,
                state.stage->ExportingHandle_memory,
                handle->Some_0,
            );
            &&& t.outcome == if replies.len() < 1 {
                None
            } else if handle is None {
                failed_after(replies, 2, Error::HandleExportFailed)
            } else {
                Some(Ok(exported))
            }
            &&& t.outcome is Some && t.outcome->Some_0 is Ok ==> t.calls == seq![
                state.pending_call(),
            ]
        }),
{
    let t = run(StepView::Next(state), replies);
    if replies.len() > 0 {
        let next = state.next_step(replies[0]);
        let rest = run(next, replies.drop_first());
        assert(t.calls =~= seq![state.pending_call()] + rest.calls);
        match next {
            StepView::Next(following) => {
                lemma_outcome_from_freeing(following, replies.drop_first());
            },
            StepView::Done(result) => {
                assert(rest.calls =~= Seq::empty());
                assert(t.calls =~= seq![state.pending_call()]);
            },
        }
    }
}

/// How a run from the binding of the memory ends.
proof fn lemma_outcome_from_binding(state: SessionState, replies: Seq<DriverReply>)
    requires
        state.stage is BindingMemory,
    ensures
        ({
            let t = run(StepView::Next(state), replies);
            let buffer = state.stage->BindingMemory_buffer;
            let requirements = state.stage->BindingMemory_requirements;
            let memory = state.stage->BindingMemory_memory;
            let handle = exported_handle(state.handle_kind, replies[1]);
            &&& t.outcome == if replies.len() < 1 {
                None
            } else if !(replies[0] is MemoryBound) {
                failed_after(replies, 2, Error::BindFailed)
            } else if replies.len() < 2 {
                None
            } else if handle is None {
                failed_after(replies, 3, Error::HandleExportFailed)
            } else {
                Some(Ok(exported_buffer(buffer, requirements, memory, handle->Some_0)))
            }
            &&& t.outcome is Some && t.outcome->Some_0 is Ok ==> t.calls == seq![
                state.pending_call(),
                state.at(Stage::ExportingHandle { buffer, requirements, memory }).pending_call(),
            ]
        }),
{
    let t = run(StepView::Next(state), replies);
    if replies.len() > 0 {
        let next = state.next_step(replies[0]);
        let rest_replies = replies.drop_first();
        let rest = run(next, rest_replies);
        assert(t.calls =~= seq![state.pending_call()] + rest.calls);
        if rest_replies.len() > 0 {
            assert(rest_replies[0] == replies[1]);
        }
        match next {
            StepView::Next(following) => {
                if following.stage is ExportingHandle {
                    lemma_outcome_from_exporting(following, rest_replies);
                } else {
                    lemma_outcome_from_freeing(following, rest_replies);
                }
            },
            StepView::Done(result) => {},
        }
    }
}

/// How a run from the allocation of the memory ends.
proof fn lemma_outcome_from_allocating(state: SessionState, replies: Seq<DriverReply>)
    requires
        state.stage is AllocatingMemory,
    ensures
        ({
            let t = run(StepView::Next(state), replies);
            let buffer = state.stage->AllocatingMemory_buffer;
            let requirements = state.stage->AllocatingMemory_requirements;
            let memory = replies[0]->MemoryAllocated_0;
            let handle = exported_handle(state.handle_kind, replies[2]);
            &&& t.outcome == if replies.len() < 1 {
                None
            } else if !(replies[0] is MemoryAllocated) {
                failed_after(replies, 1, Error::MemoryAllocationFailed)
            } else if replies.len() < 2 {
                None
            } else if !(replies[1] is MemoryBound) {
                failed_after(replies, 3, Error::BindFailed)
            } else if replies.len() < 3 {
                None
            } else if handle is None {
                failed_after(replies, 4, Error::HandleExportFailed)
            } else {
                Some(Ok(exported_buffer(buffer, requirements, memory, handle->Some_0)))
            }
            &&& t.outcome is Some && t.outcome->Some_0 is Ok ==> t.calls == seq![
                state.pending_call(),
                state.at(Stage::BindingMemory { buffer, requirements, memory }).pending_call(),
                state.at(Stage::ExportingHandle { buffer, requirements, memory }).pending_call(),
            ]
        }),
{
    let t = run(StepView::Next(state), replies);
    if replies.len() > 0 {
        let next = state.next_step(replies[0]);
        let rest_replies = replies.drop_first();
        let rest = run(next, rest_replies);
        assert(t.calls =~= seq![state.pending_call()] + rest.calls);
        if rest_replies.len() > 0 {
            assert(rest_replies[0] == replies[1]);
        }
        if rest_replies.len() > 1 {
            assert(rest_replies[1] == replies[2]);
        }
        match next {
            StepView::Next(following) => {
                if following.stage is BindingMemory {
                    lemma_outcome_from_binding(following, rest_replies);
                } else {
                    lemma_outcome_from_destroying(following, rest_replies);
                }
            },
            StepView::Done(result) => {},
        }
    }
}

/// How a run from the query of the requirements ends.
proof fn lemma_outcome_from_querying(state: SessionState, replies: Seq<DriverReply>)
    requires
        state.stage is QueryingRequirements,
    ensures
        ({
            let t = run(StepView::Next(state), replies);
            let buffer = state.stage->QueryingRequirements_buffer;
            let requirements = replies[0]->MemoryRequirements_0;
            let memory_type_index = state.memory_type->Some_0;
            let memory = replies[1]->MemoryAllocated_0;
            let handle = exported_handle(state.handle_kind, replies[3]);
            &&& t.outcome == if replies.len() < 1 {
                None
            } else if !(replies[0] is MemoryRequirements) || state.memory_type is None {
                failed_after(replies, 1, Error::MemoryAllocationFailed)
            } else if replies.len() < 2 {
                None
            } else if !(replies[1] is MemoryAllocated) {
                failed_after(replies, 2, Error::MemoryAllocationFailed)
            } else if replies.len() < 3 {
                None
            } else if !(replies[2] is MemoryBound) {
                failed_after(replies, 4, Error::BindFailed)
            } else if replies.len() < 4 {
                None
            } else if handle is None {
                failed_after(replies, 5, Error::HandleExportFailed)
            } else {
                Some(Ok(exported_buffer(buffer, requirements, memory, handle->Some_0)))
            }
            &&& t.outcome is Some && t.outcome->Some_0 is Ok ==> t.calls == seq![
                state.pending_call(),
                state.at(
                    Stage::AllocatingMemory { buffer, requirements, memory_type_index },
                ).pending_call(),
                state.at(Stage::BindingMemory { buffer, requirements, memory }).pending_call(),
                state.at(Stage::ExportingHandle { buffer, requirements, memory }).pending_call(),
            ]
        }),
{
    let t = run(StepView::Next(state), replies);
    if replies.len() > 0 {
        let next = state.next_step(replies[0]);
        let rest_replies = replies.drop_first();
        let rest = run(next, rest_replies);
        assert(t.calls =~= seq![state.pending_call()] + rest.calls);
        if rest_replies.len() > 0 {
            assert(rest_replies[0] == replies[1]);
        }
        if rest_replies.len() > 1 {
            assert(rest_replies[1] == replies[2]);
        }
        if rest_replies.len() > 2 {
            assert(rest_replies[2] == replies[3]);
        }
        match next {
            StepView::Next(following) => {
                if following.stage is AllocatingMemory {
                    lemma_outcome_from_allocating(following, rest_replies);
                } else {
                    lemma_outcome_from_destroying(following, rest_replies);
                }
            },
            StepView::Done(result) => {},
        }
    }
}

/// A run from the first stage ends as [`outcome_along`] says, and a run
/// that succeeds has made the five calls of its script.
proof fn lemma_run_outcome(state: SessionState, replies: Seq<DriverReply>)
    requires
        state.stage is CreatingBuffer,
    ensures
        run(StepView::Next(state), replies).outcome == outcome_along(state, replies),
        outcome_along(state, replies) matches Some(Ok(_)) ==> run(
            StepView::Next(state),
            replies,
        ).calls == success_calls(state, replies),
{
    let t = run(StepView::Next(state), replies);
    if replies.len() > 0 {
        let next = state.next_step(replies[0]);
        let rest_replies = replies.drop_first();
        let rest = run(next, rest_replies);
        assert(t.calls =~= seq![state.pending_call()] + rest.calls);
        if rest_replies.len() > 0 {
            assert(rest_replies[0] == replies[1]);
        }
        if rest_replies.len() > 1 {
            assert(rest_replies[1] == replies[2]);
        }
        if rest_replies.len() > 2 {
            assert(rest_replies[2] == replies[3]);
        }
        if rest_replies.len() > 3 {
            assert(rest_replies[3] == replies[4]);
        }
        match next {
            StepView::Next(following) => {
                lemma_outcome_from_querying(following, rest_replies);
                if t.outcome matches Some(Ok(_)) {
                    assert(t.calls =~= success_calls(state, replies));
                }
            },
            StepView::Done(result) => {
                assert(rest.outcome == Some(result));
            },
        }
    }
}

/// The whole of an export of `descriptor` on `device` along `replies`.
///
/// A request with a usage that no exported buffer can have fails with
/// `UnsupportedUsage` before any call is made. Every other request ends
/// as [`outcome_along`] says, and where it succeeds it has made the five
/// calls of its script and no other.
pub proof fn lemma_export_outcome(
    device: ExportDeviceView,
    descriptor: BufferDescriptor,
    replies: Seq<DriverReply>,
)
    ensures
        ({
            let t = run(begin_export(device, descriptor), replies);
            let refused = unsupported_usage_bits(descriptor.usage);
            let state = initial_state(device, descriptor);
            &&& refused != 0 ==> t.calls == Seq::<DriverCall>::empty() && t.outcome == Some(
                Err::<ExportedBuffer, Error>(Error::UnsupportedUsage(refused)),
            )
            &&& refused == 0 ==> t.outcome == outcome_along(state, replies)
            &&& refused == 0 && t.outcome is Some && t.outcome->Some_0 is Ok ==> t.calls
                == success_calls(state, replies)
        }),
{
    if unsupported_usage_bits(descriptor.usage) == 0 {
        lemma_run_outcome(initial_state(device, descriptor), replies);
    }
}

/// An export that ends in an error has released every object that the
/// driver created for it: its last call destroys the buffer, if one was
/// created, and the call before that frees the memory, if any was
/// allocated.
pub proof fn lemma_failed_export_releases_what_it_created(
    device: ExportDeviceView,
    descriptor: BufferDescriptor,
    replies: Seq<DriverReply>,
)
    ensures
        ({
            let t = run(begin_export(device, descriptor), replies);
            t.outcome matches Some(Err(_)) ==> releases_what_it_created(t, replies)
        }),
{
    if unsupported_usage_bits(descriptor.usage) == 0 {
        lemma_failed_run_releases(initial_state(device, descriptor), replies);
    }
}

/// An export makes at most seven calls, and has ended once seven replies
/// are in.
pub proof fn lemma_export_ends(
    device: ExportDeviceView,
    descriptor: BufferDescriptor,
    replies: Seq<DriverReply>,
)
    ensures
        run(begin_export(device, descriptor), replies).calls.len() <= 7,
        replies.len() >= 7 ==> run(begin_export(device, descriptor), replies).outcome is Some,
{
    if unsupported_usage_bits(descriptor.usage) == 0 {
        lemma_run_ends(initial_state(device, descriptor), replies);
    }
}

/// The memory behind an exported buffer covers the buffer that was asked
/// for and has a positive alignment, where the driver's requirements do:
/// the descriptor repeats the size and the alignment that the driver
/// required.
pub proof fn lemma_exported_memory_covers_request(
    device: ExportDeviceView,
    descriptor: BufferDescriptor,
    replies: Seq<DriverReply>,
    exported: ExportedBuffer,
)
    requires
        run(begin_export(device, descriptor), replies).outcome == Some(
            Ok::<ExportedBuffer, Error>(exported),
        ),
        replies[1] matches DriverReply::MemoryRequirements(required) ==> required.size
            >= descriptor.size && required.alignment > 0,
    ensures
        exported.import_info.memory@.length >= descriptor.size,
        exported.import_info.memory@.alignment_guarantees > 0,
        exported.import_info.memory@.offset == 0,
        exported.size == exported.import_info.memory@.length,
{
    broadcast use MemoryImportInfo::lemma_view_of_new;

    lemma_export_outcome(device, descriptor, replies);
}

/// Every exported buffer lies in a dedicated allocation.
pub proof fn lemma_exported_memory_is_dedicated(
    device: ExportDeviceView,
    descriptor: BufferDescriptor,
    replies: Seq<DriverReply>,
    exported: ExportedBuffer,
)
    requires
        run(begin_export(device, descriptor), replies).outcome == Some(
            Ok::<ExportedBuffer, Error>(exported),
        ),
    ensures
        exported.import_info.memory@.is_dedicated_allocation,
{
    broadcast use MemoryImportInfo::lemma_view_of_new;

    lemma_export_outcome(device, descriptor, replies);
}

/// The memory of an exported buffer was allocated from the first
/// device-local memory type of the device, in the size that the driver
/// required for the buffer.
pub proof fn lemma_memory_is_allocated_from_first_device_local_type(
    device: ExportDeviceView,
    descriptor: BufferDescriptor,
    replies: Seq<DriverReply>,
    exported: ExportedBuffer,
)
    requires
        device.memory_types.len() <= usize::MAX,
        run(begin_export(device, descriptor), replies).outcome == Some(
            Ok::<ExportedBuffer, Error>(exported),
        ),
    ensures
        ({
            let allocation = run(begin_export(device, descriptor), replies).calls[2];
            &&& allocation is AllocateMemory
            &&& is_first_device_local(
                device.memory_types,
                allocation->memory_type_index as int,
            )
            &&& allocation->AllocateMemory_size == replies[1]->MemoryRequirements_0.size
            &&& allocation->AllocateMemory_size == exported.size
        }),
{
    lemma_export_outcome(device, descriptor, replies);
    lemma_first_device_local(device.memory_types);
}

/// The handle in the descriptor of an exported buffer wraps the very
/// integer that the driver answered the export with: a file descriptor
/// where the export asked for one, a Win32 handle where it asked for that.
pub proof fn lemma_descriptor_holds_the_exported_handle(
    device: ExportDeviceView,
    descriptor: BufferDescriptor,
    replies: Seq<DriverReply>,
    exported: ExportedBuffer,
)
    requires
        run(begin_export(device, descriptor), replies).outcome == Some(
            Ok::<ExportedBuffer, Error>(exported),
        ),
    ensures
        match exported.import_info.memory@.raw_handle {
            RawResourceHandle::LinuxFd(fd) => replies[4] == DriverReply::FdExported(
                fd.spec_get(),
            ),
            RawResourceHandle::Win32Handle(handle) => replies[4]
                == DriverReply::Win32HandleExported(handle.spec_get()),
            RawResourceHandle::MetalResourceHandle(_) => false,
        },
{
    broadcast use
        MemoryImportInfo::lemma_view_of_new,
        RawLinuxFd::lemma_new_get,
        RawWin32Handle::lemma_new_get,
    ;

    lemma_export_outcome(device, descriptor, replies);
}

/// The memory that `call` asks to have exported, if it is an export.
pub open spec fn memory_to_export(call: DriverCall) -> Option<NativeMemory> {
    match call {
        DriverCall::ExportFd { memory, handle_type } => Some(memory),
        DriverCall::ExportWin32Handle { memory, handle_type } => Some(memory),
        _ => None,
    }
}

/// Whether the descriptor of `exported` denotes memory of the run
/// `transcript` along `replies`: the memory was allocated in the run, as a
/// dedicated allocation for the buffer of `exported`, and the handle in
/// the descriptor is the driver's reply to the export of that memory, of
/// the kind that the export asked for.
pub open spec fn denotes_own_memory(
    transcript: Transcript,
    replies: Seq<DriverReply>,
    exported: ExportedBuffer,
) -> bool {
    let handle = Some(exported.import_info.memory@.raw_handle);
    &&& transcript.calls.len() == 5 <= replies.len()
    &&& transcript.calls[2] is AllocateMemory
    &&& transcript.calls[2]->dedicated_to == exported.buffer
    &&& replies[2] == DriverReply::MemoryAllocated(exported.memory)
    &&& memory_to_export(transcript.calls[4]) == Some(exported.memory)
    &&& transcript.calls[4] is ExportFd ==> exported_handle(HandleKind::Fd, replies[4]) == handle
    &&& transcript.calls[4] is ExportWin32Handle ==> exported_handle(
        HandleKind::Win32,
        replies[4],
    ) == handle
}

/// The descriptors of two exports denote different memory objects, where
/// the driver allocated a memory object of its own for each: the handle
/// of either is exported from the memory that its own export allocated,
/// never from anything else.
pub proof fn lemma_exports_do_not_alias(
    device: ExportDeviceView,
    descriptor: BufferDescriptor,
    replies: Seq<DriverReply>,
    exported: ExportedBuffer,
    other_device: ExportDeviceView,
    other_descriptor: BufferDescriptor,
    other_replies: Seq<DriverReply>,
    other_exported: ExportedBuffer,
)
    requires
        run(begin_export(device, descriptor), replies).outcome == Some(
            Ok::<ExportedBuffer, Error>(exported),
        ),
        run(begin_export(other_device, other_descriptor), other_replies).outcome == Some(
            Ok::<ExportedBuffer, Error>(other_exported),
        ),
        replies[2] != other_replies[2],
    ensures
        denotes_own_memory(run(begin_export(device, descriptor), replies), replies, exported),
        denotes_own_memory(
            run(begin_export(other_device, other_descriptor), other_replies),
            other_replies,
            other_exported,
        ),
        exported.memory != other_exported.memory,
{
    broadcast use MemoryImportInfo::lemma_view_of_new;

    lemma_export_outcome(device, descriptor, replies);
    lemma_export_outcome(other_device, other_descriptor, other_replies);
}

} // verus!
