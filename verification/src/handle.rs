//! The handle variant model: OS-specific shareable handles and the import
//! descriptors that carry them to an importer.
//!
//! Every record here is an immutable value. None of them owns the kernel
//! object its handle denotes: closing or duplicating that object is up to
//! whoever holds the descriptor.

use vstd::prelude::*;

verus! {

/// A Win32 kernel handle, held as the opaque integer the OS gave out.
#[derive(Clone, Copy, Debug, PartialEq, Eq, Hash, Structural)]
pub struct RawWin32Handle {
    inner: isize,
}

impl RawWin32Handle {
    /// The handle that wraps `handle`.
    pub closed spec fn spec_new(handle: isize) -> Self {
        Self { inner: handle }
    }

    /// The integer that the handle wraps.
    pub closed spec fn spec_get(&self) -> isize {
        self.inner
    }

    /// Wraps `handle`.
    #[verifier::when_used_as_spec(spec_new)]
    pub fn new(handle: isize) -> (h: Self)
        ensures
            h == Self::spec_new(handle),
            h.spec_get() == handle,
    {
        Self { inner: handle }
    }

    /// The integer that was wrapped.
    #[verifier::when_used_as_spec(spec_get)]
    pub fn get(&self) -> (handle: isize)
        ensures
            handle == self.spec_get(),
    {
        self.inner
    }

    /// Unwrapping a wrapped integer gives the integer back.
    pub broadcast proof fn lemma_new_get(handle: isize)
        ensures
            #[trigger] Self::spec_new(handle).spec_get() == handle,
    {
    }
}

/// A Linux file descriptor.
#[derive(Clone, Copy, Debug, PartialEq, Eq, Hash, Structural)]
pub struct RawLinuxFd {
    inner: i32,
}

impl RawLinuxFd {
    /// The descriptor that wraps `handle`.
    pub closed spec fn spec_new(handle: i32) -> Self {
        Self { inner: handle }
    }

    /// The integer that the descriptor wraps.
    pub closed spec fn spec_get(&self) -> i32 {
        self.inner
    }

    /// Wraps `handle`.
    #[verifier::when_used_as_spec(spec_new)]
    pub fn new(handle: i32) -> (h: Self)
        ensures
            h == Self::spec_new(handle),
            h.spec_get() == handle,
    {
        Self { inner: handle }
    }

    /// The integer that was wrapped.
    #[verifier::when_used_as_spec(spec_get)]
    pub fn get(&self) -> (handle: i32)
        ensures
            handle == self.spec_get(),
    {
        self.inner
    }

    /// Unwrapping a wrapped integer gives the integer back.
    pub broadcast proof fn lemma_new_get(handle: i32)
        ensures
            #[trigger] Self::spec_new(handle).spec_get() == handle,
    {
    }
}

/// A Metal resource id. Reserved: no export path produces one yet.
#[derive(Clone, Copy, Debug, PartialEq, Eq, Hash, Structural)]
pub struct RawMetalResourceHandle {
    inner: i64,
}

impl RawMetalResourceHandle {
    /// The resource id that wraps `handle`.
    pub closed spec fn spec_new(handle: i64) -> Self {
        Self { inner: handle }
    }

    /// The integer that the resource id wraps.
    pub closed spec fn spec_get(&self) -> i64 {
        self.inner
    }

    /// Wraps `handle`.
    #[verifier::when_used_as_spec(spec_new)]
    pub fn new(handle: i64) -> (h: Self)
        ensures
            h == Self::spec_new(handle),
            h.spec_get() == handle,
    {
        Self { inner: handle }
    }

    /// The integer that was wrapped.
    #[verifier::when_used_as_spec(spec_get)]
    pub fn get(&self) -> (handle: i64)
        ensures
            handle == self.spec_get(),
    {
        self.inner
    }
}

/// An OS-specific shareable handle. Which variant a build produces is fixed
/// by its host platform; further kinds may be added.
#[non_exhaustive]
#[derive(Clone, Copy, Debug, PartialEq, Eq, Hash, Structural)]
pub enum RawResourceHandle {
    Win32Handle(RawWin32Handle),
    LinuxFd(RawLinuxFd),
    MetalResourceHandle(RawMetalResourceHandle),
}

/// What an importer reads off a [`MemoryImportInfo`].
pub struct MemoryImportView {
    pub raw_handle: RawResourceHandle,
    pub offset: u64,
    pub length: u64,
    pub alignment_guarantees: u64,
    pub is_dedicated_allocation: bool,
}

/// Describes one exported memory object: the handle that denotes it, and
/// where in it the resource lies.
///
/// Exported memory is never suballocated: one memory object maps to exactly
/// one handle, so every value of this type is a dedicated allocation.
#[derive(Clone, Copy, Debug)]
pub struct MemoryImportInfo {
    raw_handle: RawResourceHandle,
    offset: u64,
    length: u64,
    alignment_guarantees: u64,
    is_dedicated_allocation: bool,
}

impl View for MemoryImportInfo {
    type V = MemoryImportView;

    closed spec fn view(&self) -> MemoryImportView {
        MemoryImportView {
            raw_handle: self.raw_handle,
            offset: self.offset,
            length: self.length,
            alignment_guarantees: self.alignment_guarantees,
            is_dedicated_allocation: self.is_dedicated_allocation,
        }
    }
}

impl MemoryImportInfo {
    #[verifier::type_invariant]
    spec fn dedicated(self) -> bool {
        self.is_dedicated_allocation
    }

    /// The descriptor of a dedicated allocation with the given handle and
    /// placement.
    pub closed spec fn spec_new(
        raw_handle: RawResourceHandle,
        offset: u64,
        length: u64,
        alignment_guarantees: u64,
    ) -> Self {
        Self { raw_handle, offset, length, alignment_guarantees, is_dedicated_allocation: true }
    }

    /// What a descriptor made by [`Self::spec_new`] shows.
    pub broadcast proof fn lemma_view_of_new(
        raw_handle: RawResourceHandle,
        offset: u64,
        length: u64,
        alignment_guarantees: u64,
    )
        ensures
            (#[trigger] Self::spec_new(raw_handle, offset, length, alignment_guarantees))@ == (
            MemoryImportView {
                raw_handle,
                offset,
                length,
                alignment_guarantees,
                is_dedicated_allocation: true,
            }),
    {
    }

    /// Describes a dedicated allocation of `length` bytes.
    #[verifier::when_used_as_spec(spec_new)]
    pub fn new(
        raw_handle: RawResourceHandle,
        offset: u64,
        length: u64,
        alignment_guarantees: u64,
    ) -> (info: Self)
        ensures
            info == Self::spec_new(raw_handle, offset, length, alignment_guarantees),
            info@ == (MemoryImportView {
                raw_handle,
                offset,
                length,
                alignment_guarantees,
                is_dedicated_allocation: true,
            }),
    {
        Self { raw_handle, offset, length, alignment_guarantees, is_dedicated_allocation: true }
    }

    /// The handle that denotes the memory object.
    pub fn raw_handle(&self) -> (handle: RawResourceHandle)
        ensures
            handle == self@.raw_handle,
    {
        self.raw_handle
    }

    /// Where in the memory object the resource starts, in bytes.
    pub fn offset(&self) -> (offset: u64)
        ensures
            offset == self@.offset,
    {
        self.offset
    }

    /// The size of the memory behind the resource, in bytes.
    pub fn length(&self) -> (length: u64)
        ensures
            length == self@.length,
    {
        self.length
    }

    /// The alignment that the memory is known to have, in bytes.
    pub fn alignment_guarantees(&self) -> (alignment: u64)
        ensures
            alignment == self@.alignment_guarantees,
    {
        self.alignment_guarantees
    }

    /// Always true: no descriptor of suballocated memory exists.
    pub fn is_dedicated_allocation(&self) -> (dedicated: bool)
        ensures
            dedicated,
            dedicated == self@.is_dedicated_allocation,
    {
        proof {
            use_type_invariant(self);
        }
        self.is_dedicated_allocation
    }
}

/// Describes an exported synchronization primitive.
#[derive(Clone, Copy, Debug)]
pub struct SemaphoreImportInfo {
    pub raw_handle: RawResourceHandle,
}

/// Describes an exported linear buffer.
#[derive(Clone, Copy, Debug)]
pub struct BufferImportInfo {
    pub memory: MemoryImportInfo,
}

/// The dimensionality of an exported texture.
#[derive(Clone, Copy, Debug, PartialEq, Eq, Hash, Structural)]
pub enum TextureType {
    D1,
    D2,
    D2Array,
    D3,
}

/// How the texels of an exported texture are laid out. The exporter's caller
/// chooses it; the driver does not negotiate it.
#[derive(Clone, Copy, Debug, PartialEq, Eq, Hash, Structural)]
pub enum TextureImageTiling {
    /// A layout of the driver's choosing, which only the exporting driver
    /// understands.
    Optimal,
    /// Row-major layout, possibly with padding, which an importer can read
    /// on its own.
    Linear,
}

/// Describes an exported texture.
#[derive(Clone, Copy, Debug)]
pub struct TextureImportInfo {
    pub memory: MemoryImportInfo,
    pub width: u32,
    pub height: u32,
    pub depth_or_array_layers: u32,
    pub dimension: TextureType,
    pub tiling: TextureImageTiling,
}

} // verus!
