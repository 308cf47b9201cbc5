//! Ring arithmetic shared by both queues, and the memory fence of the
//! wake-up handshake.
use std::sync::atomic::Ordering;
use vstd::prelude::*;

verus! {

/// A ring of `size` slots, `size` a power of two and `mask` one less.
pub open spec fn ring_shape(size: u32, mask: u32) -> bool {
    size != 0 && mask == (size - 1) as u32 && size & mask == 0
}

/// Slot of the ring that the counter value `c` addresses.
pub open spec fn spec_slot(c: u32, mask: u32) -> u32 {
    c & mask
}

/// Do `size` and `mask` describe a ring?
pub fn check_shape(size: u32, mask: u32) -> (r: bool)
    ensures
        r == ring_shape(size, mask),
{
    size != 0 && mask == size - 1 && size & mask == 0
}

pub proof fn lemma_slot_bound(c: u32, mask: u32)
    ensures
        c & mask <= mask,
{
    assert(c & mask <= mask) by (bit_vector);
}

/// The counter after the last slot addresses slot 0.
pub proof fn lemma_wrap_to_zero(c: u32, size: u32, mask: u32)
    requires
        ring_shape(size, mask),
        c & mask == mask,
    ensures
        c.wrapping_add(1) & mask == 0,
{
    let c1 = c.wrapping_add(1);
    assert(c1 == if c == 0xffff_ffffu32 { 0u32 } else { (c + 1) as u32 });
    assert(size & mask == 0 && mask == (size - 1) as u32 && size != 0);
    assert((size & mask == 0 && size != 0 && mask == vstd::prelude::sub(size, 1u32) && c & mask == mask) ==> (vstd::prelude::add(
        c,
        1u32,
    ) & mask == 0)) by (bit_vector);
    assert(vstd::prelude::add(c, 1u32) == c1) by (bit_vector)
        requires
            c1 == if c == 0xffff_ffffu32 { 0u32 } else { (c + 1) as u32 },
    ;
}

/// The slot a counter addresses is its value modulo the ring size, so the
/// counters `size - 1` and `size` address the last slot and slot 0.
pub proof fn lemma_wrap_slots(size: u32, mask: u32)
    requires
        ring_shape(size, mask),
    ensures
        ((size - 1) as u32) & mask == mask,
        size & mask == 0,
{
    assert((mask & mask) == mask) by (bit_vector);
}

/// Relies on `std::sync::atomic::fence`, which panics only for `Relaxed`.
pub assume_specification[ std::sync::atomic::fence ](order: Ordering)
    requires
        !(order is Relaxed),
;

} // verus!
