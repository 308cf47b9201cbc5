//! The setup parameter block shared with the kernel (`io_uring_params`),
//! as plain values.
use vstd::prelude::*;

verus! {

/// Byte offsets, from the start of the SQ ring, of its fields.
#[derive(Debug, Clone, Copy, PartialEq, Eq, Structural)]
pub struct SqRingOffsets {
    pub head: u32,
    pub tail: u32,
    pub ring_mask: u32,
    pub ring_entries: u32,
    pub flags: u32,
    pub dropped: u32,
    pub array: u32,
    pub resv1: u32,
    pub user_addr: u64,
}

/// Byte offsets, from the start of the CQ ring, of its fields.
#[derive(Debug, Clone, Copy, PartialEq, Eq, Structural)]
pub struct CqRingOffsets {
    pub head: u32,
    pub tail: u32,
    pub ring_mask: u32,
    pub ring_entries: u32,
    pub overflow: u32,
    pub cqes: u32,
    pub flags: u32,
    pub resv1: u32,
    pub user_addr: u64,
}

/// The parameter block of the setup call: what is asked for, and what the
/// kernel reports back.
#[derive(Debug, Clone, Copy, PartialEq, Eq, Structural)]
pub struct IoUringParams {
    pub sq_entries: u32,
    pub cq_entries: u32,
    pub flags: u32,
    pub sq_thread_cpu: u32,
    pub sq_thread_idle: u32,
    pub features: u32,
    pub wq_fd: u32,
    pub resv0: u32,
    pub resv1: u32,
    pub resv2: u32,
    pub sq_off: SqRingOffsets,
    pub cq_off: CqRingOffsets,
}

pub open spec fn zero_sq_off() -> SqRingOffsets {
    SqRingOffsets {
        head: 0,
        tail: 0,
        ring_mask: 0,
        ring_entries: 0,
        flags: 0,
        dropped: 0,
        array: 0,
        resv1: 0,
        user_addr: 0,
    }
}

pub open spec fn zero_cq_off() -> CqRingOffsets {
    CqRingOffsets {
        head: 0,
        tail: 0,
        ring_mask: 0,
        ring_entries: 0,
        overflow: 0,
        cqes: 0,
        flags: 0,
        resv1: 0,
        user_addr: 0,
    }
}

/// The all-zero parameter block.
pub open spec fn zero_params() -> IoUringParams {
    IoUringParams {
        sq_entries: 0,
        cq_entries: 0,
        flags: 0,
        sq_thread_cpu: 0,
        sq_thread_idle: 0,
        features: 0,
        wq_fd: 0,
        resv0: 0,
        resv1: 0,
        resv2: 0,
        sq_off: zero_sq_off(),
        cq_off: zero_cq_off(),
    }
}

impl IoUringParams {
    pub fn zeroed() -> (r: Self)
        ensures
            r == zero_params(),
    {
        IoUringParams {
            sq_entries: 0,
            cq_entries: 0,
            flags: 0,
            sq_thread_cpu: 0,
            sq_thread_idle: 0,
            features: 0,
            wq_fd: 0,
            resv0: 0,
            resv1: 0,
            resv2: 0,
            sq_off: SqRingOffsets {
                head: 0,
                tail: 0,
                ring_mask: 0,
                ring_entries: 0,
                flags: 0,
                dropped: 0,
                array: 0,
                resv1: 0,
                user_addr: 0,
            },
            cq_off: CqRingOffsets {
                head: 0,
                tail: 0,
                ring_mask: 0,
                ring_entries: 0,
                overflow: 0,
                cqes: 0,
                flags: 0,
                resv1: 0,
                user_addr: 0,
            },
        }
    }
}

} // verus!
