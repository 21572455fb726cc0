//! What the exporter reads of a device's memory: its memory types, the
//! requirements of a buffer, and the choice of the type to allocate from.

use crate::native::{is_device_local, VK_MEMORY_PROPERTY_DEVICE_LOCAL};
use vstd::prelude::*;

verus! {

/// One entry of a device's memory property list.
#[derive(Clone, Copy, Debug, PartialEq, Eq, Hash, Structural)]
pub struct MemoryType {
    /// The raw memory property flags of the type.
    pub property_flags: u32,
    /// The heap that the type allocates from.
    pub heap_index: u32,
}

/// What the driver requires of the memory behind a buffer.
#[derive(Clone, Copy, Debug, PartialEq, Eq, Hash, Structural)]
pub struct MemoryRequirements {
    /// The size to allocate, in bytes. It may exceed the buffer's size.
    pub size: u64,
    /// The alignment of the allocation, in bytes.
    pub alignment: u64,
}

impl MemoryType {
    /// Whether memory of this type lies on the device.
    pub open spec fn device_local(self) -> bool {
        self.property_flags & VK_MEMORY_PROPERTY_DEVICE_LOCAL == VK_MEMORY_PROPERTY_DEVICE_LOCAL
    }
}

/// Whether `index` is the first device-local entry of `types`.
pub open spec fn is_first_device_local(types: Seq<MemoryType>, index: int) -> bool {
    &&& 0 <= index < types.len()
    &&& types[index].device_local()
    &&& forall|j: int| 0 <= j < index ==> !(#[trigger] types[j]).device_local()
}

/// The index of the first device-local entry of `types` at or after
/// `start`, if there is one.
pub open spec fn first_device_local_from(types: Seq<MemoryType>, start: int) -> Option<usize>
    decreases types.len() - start,
{
    if start < 0 || start >= types.len() {
        None
    } else if types[start].device_local() {
        Some(start as usize)
    } else {
        first_device_local_from(types, start + 1)
    }
}

/// The memory type that an export allocates from: the first device-local
/// entry of the device's memory property list. No other heap is tried.
pub open spec fn first_device_local(types: Seq<MemoryType>) -> Option<usize> {
    first_device_local_from(types, 0)
}

/// The search from `start` finds the first device-local entry at or after
/// `start`, and finds nothing only where there is none.
proof fn lemma_first_device_local_from(types: Seq<MemoryType>, start: int)
    requires
        0 <= start <= types.len() <= usize::MAX,
    ensures
        match first_device_local_from(types, start) {
            Some(index) => {
                &&& start <= index < types.len()
                &&& types[index as int].device_local()
                &&& forall|j: int| start <= j < index ==> !(#[trigger] types[j]).device_local()
            },
            None => forall|j: int|
                start <= j < types.len() ==> !(#[trigger] types[j]).device_local(),
        },
    decreases types.len() - start,
{
    if start < types.len() && !types[start].device_local() {
        lemma_first_device_local_from(types, start + 1);
    }
}

/// The memory type that an export allocates from is the first device-local
/// entry of the list, and there is none only where no entry is
/// device-local.
pub proof fn lemma_first_device_local(types: Seq<MemoryType>)
    requires
        types.len() <= usize::MAX,
    ensures
        match first_device_local(types) {
            Some(index) => is_first_device_local(types, index as int),
            None => forall|j: int| 0 <= j < types.len() ==> !(#[trigger] types[j]).device_local(),
        },
{
    lemma_first_device_local_from(types, 0);
}

/// Chooses the memory type to allocate an exported buffer from.
pub fn select_memory_type(types: &Vec<MemoryType>) -> (selected: Option<usize>)
    ensures
        selected == first_device_local(types@),
        match selected {
            Some(index) => is_first_device_local(types@, index as int),
            None => forall|j: int| 0 <= j < types@.len() ==> !(#[trigger] types@[j]).device_local(),
        },
{
    let mut i: usize = 0;
    while i < types.len()
        invariant
            i <= types@.len(),
            first_device_local(types@) == first_device_local_from(types@, i as int),
            forall|j: int| 0 <= j < i ==> !(#[trigger] types@[j]).device_local(),
        decreases types@.len() - i,
    {
        if is_device_local(types[i].property_flags) {
            return Some(i);
        }
        i += 1;
    }
    None
}

} // verus!
