//! Submission entries: the 64-byte kernel SQE, its 128-byte extension and
//! the 64-byte slot of a mixed ring. An entry is held as the native 64-bit
//! words that are copied into the shared SQE array.
use vstd::prelude::*;
use crate::flags::{OP_NOP128, OP_URING_CMD128, SETUP_SQE128, SETUP_SQE_MIXED};

verus! {

/// Words in one 64-byte SQE slot.
pub const SQE_WORDS: usize = 8;

/// The entry classes a submission ring can be set up with.
#[derive(Debug, Clone, Copy, PartialEq, Eq, Structural)]
pub enum Ty {
    Sqe64,
    Sqe128,
    SqeMix,
}

/// Setup flag that selects an entry class.
pub open spec fn spec_setup_flag(t: Ty) -> u32 {
    match t {
        Ty::Sqe64 => 0,
        Ty::Sqe128 => SETUP_SQE128,
        Ty::SqeMix => SETUP_SQE_MIXED,
    }
}

/// Bytes of one slot of the SQE array for an entry class.
pub open spec fn spec_sqe_size(t: Ty) -> usize {
    match t {
        Ty::Sqe64 | Ty::SqeMix => 64,
        Ty::Sqe128 => 128,
    }
}

impl Ty {
    pub fn setup_flag(&self) -> (r: u32)
        ensures
            r == spec_setup_flag(*self),
    {
        match self {
            Ty::Sqe64 => 0,
            Ty::Sqe128 => SETUP_SQE128,
            Ty::SqeMix => SETUP_SQE_MIXED,
        }
    }

    pub fn setup_sqe_size(&self) -> (r: usize)
        ensures
            r == spec_sqe_size(*self),
    {
        match self {
            Ty::Sqe64 | Ty::SqeMix => 64,
            Ty::Sqe128 => 128,
        }
    }
}

/// An SQE class, as a type parameter of rings and arguments.
pub trait Sqe {
    spec fn ty() -> Ty;

    fn kind() -> (r: Ty)
        ensures
            r == Self::ty(),
    ;
}

/// Entry classes of a fixed size: each entry fills exactly one slot.
pub trait FixSqe {}

/// Is this opcode one that needs a 128-byte entry?
pub open spec fn spec_is_sqe128_op(opcode: u8) -> bool {
    opcode == OP_NOP128 || opcode == OP_URING_CMD128
}

/// The opcode byte of an SQE, held in the lowest byte of its first word.
pub open spec fn spec_opcode(w0: u64) -> u8 {
    (w0 & 0xff) as u8
}

/// ## Sqe64
#[derive(Debug, Clone, Copy)]
pub struct Sqe64 {
    pub raw: [u64; 8],
}

impl Sqe64 {
    pub const SETUP_SQE_SIZE: usize = 64;

    pub fn new(raw: [u64; 8]) -> (r: Self)
        ensures
            r.raw@ == raw@,
    {
        Sqe64 { raw }
    }
}

impl Sqe for Sqe64 {
    open spec fn ty() -> Ty {
        Ty::Sqe64
    }

    fn kind() -> (r: Ty) {
        Ty::Sqe64
    }
}

impl FixSqe for Sqe64 {}

/// ## Sqe128
#[derive(Debug, Clone, Copy)]
pub struct Sqe128 {
    pub raw: [u64; 16],
}

impl Sqe128 {
    pub const SETUP_SQE_SIZE: usize = 128;

    /// An extended entry whose first 64 bytes are `raw` and whose command
    /// payload is zero.
    pub fn new(raw: [u64; 8]) -> (r: Self)
        ensures
            r.raw@ == raw@ + seq![0u64, 0, 0, 0, 0, 0, 0, 0],
    {
        let r = Sqe128 {
            raw: [
                raw[0], raw[1], raw[2], raw[3], raw[4], raw[5], raw[6], raw[7],
                0, 0, 0, 0, 0, 0, 0, 0,
            ],
        };
        assert(r.raw@ =~= raw@ + seq![0u64, 0, 0, 0, 0, 0, 0, 0]);
        r
    }
}

impl Sqe for Sqe128 {
    open spec fn ty() -> Ty {
        Ty::Sqe128
    }

    fn kind() -> (r: Ty) {
        Ty::Sqe128
    }
}

impl FixSqe for Sqe128 {}

/// ## Sqe Mixed
///
/// One 64-byte slot of a ring that takes both entry sizes.
#[derive(Debug, Clone, Copy)]
pub struct SqeMix {
    pub raw: [u64; 8],
}

impl SqeMix {
    pub const SETUP_SQE_SIZE: usize = 64;

    /// Does the opcode of this slot ask for a 128-byte entry?
    pub fn is_sqe128(&self) -> (r: bool)
        ensures
            r == spec_is_sqe128_op(spec_opcode(self.raw@[0])),
    {
        let op = (self.raw[0] & 0xff) as u8;
        op == OP_NOP128 || op == OP_URING_CMD128
    }

    /// The slot holding a 64-byte entry.
    pub fn from_sqe64(sqe: Sqe64) -> (r: Self)
        ensures
            r.raw@ == sqe.raw@,
    {
        SqeMix { raw: sqe.raw }
    }
}

impl Sqe for SqeMix {
    open spec fn ty() -> Ty {
        Ty::SqeMix
    }

    fn kind() -> (r: Ty) {
        Ty::SqeMix
    }
}

} // verus!
