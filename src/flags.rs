//! Kernel ABI numbers of the io_uring interface: flag bits, opcodes and
//! mmap offsets, as the kernel headers define them.
use vstd::prelude::*;

verus! {

/// Does the bit set `bits` hold every bit of `flag`?
pub open spec fn has_flag(bits: u32, flag: u32) -> bool {
    bits & flag == flag
}

/// Executable membership test for a flag set.
pub fn contains(bits: u32, flag: u32) -> (r: bool)
    ensures
        r == has_flag(bits, flag),
{
    bits & flag == flag
}

// Setup flags (`io_uring_params.flags`).
pub const SETUP_IOPOLL: u32 = 1;
pub const SETUP_SQPOLL: u32 = 2;
pub const SETUP_SQ_AFF: u32 = 4;
pub const SETUP_CQSIZE: u32 = 8;
pub const SETUP_CLAMP: u32 = 16;
pub const SETUP_ATTACH_WQ: u32 = 32;
pub const SETUP_R_DISABLED: u32 = 64;
pub const SETUP_SUBMIT_ALL: u32 = 128;
pub const SETUP_COOP_TASKRUN: u32 = 256;
pub const SETUP_TASKRUN_FLAG: u32 = 512;
pub const SETUP_SQE128: u32 = 1024;
pub const SETUP_CQE32: u32 = 2048;
pub const SETUP_SINGLE_ISSUER: u32 = 4096;
pub const SETUP_DEFER_TASKRUN: u32 = 8192;
pub const SETUP_NO_MMAP: u32 = 16384;
pub const SETUP_REGISTERED_FD_ONLY: u32 = 32768;
pub const SETUP_NO_SQARRAY: u32 = 65536;
pub const SETUP_HYBRID_IOPOLL: u32 = 131072;
pub const SETUP_CQE_MIXED: u32 = 262144;
pub const SETUP_SQE_MIXED: u32 = 524288;

// Enter flags (`io_uring_enter` flags argument).
pub const ENTER_GETEVENTS: u32 = 1;
pub const ENTER_SQ_WAKEUP: u32 = 2;
pub const ENTER_SQ_WAIT: u32 = 4;
pub const ENTER_EXT_ARG: u32 = 8;
pub const ENTER_REGISTERED_RING: u32 = 16;
pub const ENTER_NO_IOWAIT: u32 = 128;

// Feature flags reported by the kernel (`io_uring_params.features`).
pub const FEAT_SINGLE_MMAP: u32 = 1;
pub const FEAT_NODROP: u32 = 2;
pub const FEAT_SUBMIT_STABLE: u32 = 4;
pub const FEAT_REG_REG_RING: u32 = 8192;
pub const FEAT_NO_IOWAIT: u32 = 131072;

// Flags word of the submission ring, written by the kernel.
pub const SQ_NEED_WAKEUP: u32 = 1;
pub const SQ_CQ_OVERFLOW: u32 = 2;
pub const SQ_TASKRUN: u32 = 4;

// Per-entry submission flags (`io_uring_sqe.flags`).
pub const SQE_FIXED_FILE: u8 = 1;
pub const SQE_IO_DRAIN: u8 = 2;
pub const SQE_IO_LINK: u8 = 4;
pub const SQE_CQE_SKIP_SUCCESS: u8 = 64;

// Completion entry flags (`io_uring_cqe.flags`).
pub const CQE_F_BUFFER: u32 = 1;
pub const CQE_F_MORE: u32 = 2;
pub const CQE_F_32: u32 = 32768;

// Opcodes (`io_uring_sqe.opcode`).
pub const OP_NOP: u8 = 0;
pub const OP_READ: u8 = 22;
pub const OP_URING_CMD: u8 = 46;
pub const OP_NOP128: u8 = 63;
pub const OP_URING_CMD128: u8 = 64;

// Register opcodes.
pub const REGISTER_RING_FDS: u32 = 20;
pub const UNREGISTER_RING_FDS: u32 = 21;

// Offsets handed to mmap for the three kernel-allocated regions.
pub const OFF_SQ_RING: u64 = 0;
pub const OFF_CQ_RING: u64 = 0x8000000;
pub const OFF_SQES: u64 = 0x10000000;

/// Largest submission ring the kernel accepts.
pub const MAX_SQ_ENTRIES: u32 = 32768;
/// Largest completion ring the kernel accepts.
pub const MAX_CQ_ENTRIES: u32 = 65536;
/// Size of the kernel's ring header (`struct io_rings`) in front of the CQEs.
pub const IO_RINGS_SIZE: usize = 64;
/// Size of a huge page, the most the anonymous arena maps per region.
pub const HUGE_PAGE_SIZE: usize = 2097152;

/// Flags of the no-op opcode (`io_uring_sqe.nop_flags`).
pub struct NopFlags {}

impl NopFlags {
    pub const NONE: u32 = 0;
    pub const INJECT_RESULT: u32 = 1;
    pub const FILE: u32 = 2;
    pub const FIXED_FILE: u32 = 4;
    pub const FIXED_BUFFER: u32 = 8;
    pub const TW: u32 = 16;
    pub const CQE32: u32 = 32;
}

/// Protection-information attribute of the write opcode.
#[derive(Debug, Clone, Copy, Default)]
pub struct IoUringWritePi {
    pub flags: u16,
    pub app_tag: u16,
    pub len: u32,
    pub addr: u64,
    pub seed: u64,
    pub rsvd: u64,
}

} // verus!
