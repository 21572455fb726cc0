//! Translation of a requested buffer usage into native usage flags.
//!
//! An exported buffer can be a copy source, a copy destination and a
//! read-write storage buffer. A request for anything else is refused as a
//! whole: no caller gets a buffer that lacks a capability it asked for.

use crate::error::Error;
use crate::native::{
    map_buffer_usage, usage_copy_dst, usage_copy_src, usage_storage, uses_copy_dst,
    uses_copy_src, uses_storage_read_write, vk_buffer_usage, USAGE_COPY_DST, USAGE_COPY_SRC,
    USAGE_STORAGE, USES_COPY_DST, USES_COPY_SRC, USES_EXPORTABLE, USES_STORAGE_READ_WRITE,
    VK_BUFFER_USAGE_STORAGE_BUFFER, VK_BUFFER_USAGE_TRANSFER_DST, VK_BUFFER_USAGE_TRANSFER_SRC,
};
use vstd::prelude::*;

verus! {

/// The usages that an exported buffer can have: copy source, copy
/// destination and storage.
pub const EXPORTABLE_USAGES: u32 = 0x8C;

/// The bits of `usage` that name a usage which an exported buffer cannot
/// have.
pub open spec fn unsupported_usage_bits(usage: u32) -> u32 {
    usage & !EXPORTABLE_USAGES
}

/// The internal uses that stand for the exportable usages in `usage`:
/// copying stays copying, storage becomes read-write storage.
pub open spec fn buffer_uses(usage: u32) -> u16 {
    (if usage & USAGE_COPY_SRC != 0 {
        USES_COPY_SRC
    } else {
        0u16
    }) | (if usage & USAGE_COPY_DST != 0 {
        USES_COPY_DST
    } else {
        0u16
    }) | (if usage & USAGE_STORAGE != 0 {
        USES_STORAGE_READ_WRITE
    } else {
        0u16
    })
}

/// The native usage flags of a buffer with the exportable usages in
/// `usage`.
pub open spec fn native_buffer_usage(usage: u32) -> u32 {
    vk_buffer_usage(buffer_uses(usage))
}

/// Translates a requested usage into native usage flags, or refuses it
/// with the bits that no exported buffer can have.
pub fn translate_usage(usage: u32) -> (flags: Result<u32, Error>)
    ensures
        unsupported_usage_bits(usage) == 0 ==> flags == Ok::<u32, Error>(
            native_buffer_usage(usage),
        ),
        unsupported_usage_bits(usage) != 0 ==> flags == Err::<u32, Error>(
            Error::UnsupportedUsage(unsupported_usage_bits(usage)),
        ),
{
    let copy_src = usage_copy_src();
    let copy_dst = usage_copy_dst();
    let storage = usage_storage();
    let exportable = copy_src | copy_dst | storage;
    assert(0x4u32 | 0x8u32 | 0x80u32 == 0x8Cu32) by (bit_vector);
    let refused = usage & !exportable;
    if refused != 0 {
        return Err(Error::UnsupportedUsage(refused));
    }
    let source: u16 = if usage & copy_src != 0 {
        uses_copy_src()
    } else {
        0
    };
    let destination: u16 = if usage & copy_dst != 0 {
        uses_copy_dst()
    } else {
        0
    };
    let read_write: u16 = if usage & storage != 0 {
        uses_storage_read_write()
    } else {
        0
    };
    let uses = source | destination | read_write;
    assert((source | destination | read_write) & !0x10Cu16 == 0) by (bit_vector)
        requires
            source == 0 || source == 0x4,
            destination == 0 || destination == 0x8,
            read_write == 0 || read_write == 0x100,
    ;
    Ok(map_buffer_usage(uses))
}

/// A translated usage has the native flag of each usage that was asked
/// for, and no other flag.
pub proof fn lemma_native_usage_is_faithful(usage: u32)
    ensures
        (usage & USAGE_COPY_SRC != 0) <==> (native_buffer_usage(usage)
            & VK_BUFFER_USAGE_TRANSFER_SRC != 0),
        (usage & USAGE_COPY_DST != 0) <==> (native_buffer_usage(usage)
            & VK_BUFFER_USAGE_TRANSFER_DST != 0),
        (usage & USAGE_STORAGE != 0) <==> (native_buffer_usage(usage)
            & VK_BUFFER_USAGE_STORAGE_BUFFER != 0),
        native_buffer_usage(usage) & !(VK_BUFFER_USAGE_TRANSFER_SRC
            | VK_BUFFER_USAGE_TRANSFER_DST | VK_BUFFER_USAGE_STORAGE_BUFFER) == 0,
{
    let source: u16 = if usage & USAGE_COPY_SRC != 0 {
        USES_COPY_SRC
    } else {
        0
    };
    let destination: u16 = if usage & USAGE_COPY_DST != 0 {
        USES_COPY_DST
    } else {
        0
    };
    let read_write: u16 = if usage & USAGE_STORAGE != 0 {
        USES_STORAGE_READ_WRITE
    } else {
        0
    };
    let uses = source | destination | read_write;
    assert(uses == buffer_uses(usage));
    assert({
        &&& (uses & 0x4 != 0) == (source != 0)
        &&& (uses & 0x8 != 0) == (destination != 0)
        &&& (uses & 0x100 != 0) == (read_write != 0)
    }) by (bit_vector)
        requires
            uses == source | destination | read_write,
            source == 0 || source == 0x4,
            destination == 0 || destination == 0x8,
            read_write == 0 || read_write == 0x100,
    ;
    let a: u32 = if uses & USES_COPY_SRC != 0 {
        VK_BUFFER_USAGE_TRANSFER_SRC
    } else {
        0
    };
    let b: u32 = if uses & USES_COPY_DST != 0 {
        VK_BUFFER_USAGE_TRANSFER_DST
    } else {
        0
    };
    let c: u32 = if uses & USES_STORAGE_READ_WRITE != 0 {
        VK_BUFFER_USAGE_STORAGE_BUFFER
    } else {
        0
    };
    let flags = a | b | c;
    assert(flags == native_buffer_usage(usage));
    assert({
        &&& (flags & 0x1 != 0) == (a != 0)
        &&& (flags & 0x2 != 0) == (b != 0)
        &&& (flags & 0x20 != 0) == (c != 0)
        &&& flags & !(0x1u32 | 0x2u32 | 0x20u32) == 0
    }) by (bit_vector)
        requires
            flags == a | b | c,
            a == 0 || a == 0x1,
            b == 0 || b == 0x2,
            c == 0 || c == 0x20,
    ;
}

} // verus!
