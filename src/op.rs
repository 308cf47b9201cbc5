//! Operations: typed builders of submission entries. Each operation is
//! encoded, field by field, into the words of the SQE class it targets.
use vstd::prelude::*;
use crate::flags::{NopFlags, OP_NOP, OP_NOP128, OP_READ, SQE_CQE_SKIP_SUCCESS, SQE_FIXED_FILE};
use crate::sqe::{self, FixSqe, Sqe, Sqe128, Sqe64};

verus! {

/// The word holding two 32-bit fields, `lo` in its low half.
pub open spec fn spec_pair(lo: u32, hi: u32) -> u64 {
    (lo as u64) | ((hi as u64) << 32u64)
}

/// First word of an SQE: opcode, flags, I/O priority and descriptor.
pub open spec fn spec_head_word(opcode: u8, flags: u8, ioprio: u16, fd: i32) -> u64 {
    (opcode as u64) | ((flags as u64) << 8u64) | ((ioprio as u64) << 16u64) | (((fd as u32) as u64)
        << 32u64)
}

pub fn pair(lo: u32, hi: u32) -> (r: u64)
    ensures
        r == spec_pair(lo, hi),
{
    (lo as u64) | ((hi as u64) << 32u64)
}

pub fn head_word(opcode: u8, flags: u8, ioprio: u16, fd: i32) -> (r: u64)
    ensures
        r == spec_head_word(opcode, flags, ioprio, fd),
{
    (opcode as u64) | ((flags as u64) << 8u64) | ((ioprio as u64) << 16u64) | (((fd as u32) as u64)
        << 32u64)
}

/// Entry classes an operation may target: the fixed-size ones.
pub trait Sealed: Sqe + FixSqe {}

impl Sealed for Sqe64 {}

impl Sealed for Sqe128 {}

/// An operation: a value with the layout of a 64-byte SQE.
pub trait Op: Sized {
    /// Words of the entry this operation is encoded as.
    spec fn spec_words(&self) -> Seq<u64>;

    spec fn spec_opcode() -> u8;

    fn op_code() -> (r: u8)
        ensures
            r == Self::spec_opcode(),
    ;

    fn into_sqe(self) -> (r: Sqe64)
        ensures
            r.raw@ == self.spec_words(),
    ;
}

/// A descriptor an operation can act on: a plain descriptor, or the index
/// of one registered with the ring.
pub trait OpFd {
    /// Flag set on the SQE for this kind of descriptor.
    spec fn spec_sqe_flag() -> u8;

    /// Flag set on a no-op for this kind of descriptor.
    spec fn spec_nop_flag() -> u32;

    spec fn spec_raw_fd(&self) -> i32;

    fn sqe_flag() -> (r: u8)
        ensures
            r == Self::spec_sqe_flag(),
    ;

    fn nop_flag() -> (r: u32)
        ensures
            r == Self::spec_nop_flag(),
    ;

    fn raw_fd(&self) -> (r: i32)
        ensures
            r == self.spec_raw_fd(),
    ;
}

/// ## Fix Fd
///
/// Index of a descriptor registered with the ring.
#[derive(Debug, Clone, Copy)]
pub struct FixFd {
    pub idx: i32,
}

impl FixFd {
    pub fn new(idx: usize) -> (r: Self)
        requires
            idx <= 0x7fff_ffff,
        ensures
            r.idx == idx as i32,
    {
        FixFd { idx: idx as i32 }
    }
}

impl OpFd for FixFd {
    open spec fn spec_sqe_flag() -> u8 {
        SQE_FIXED_FILE
    }

    open spec fn spec_nop_flag() -> u32 {
        NopFlags::FILE | NopFlags::FIXED_FILE
    }

    open spec fn spec_raw_fd(&self) -> i32 {
        self.idx
    }

    fn sqe_flag() -> (r: u8) {
        SQE_FIXED_FILE
    }

    fn nop_flag() -> (r: u32) {
        NopFlags::FILE | NopFlags::FIXED_FILE
    }

    fn raw_fd(&self) -> (r: i32) {
        self.idx
    }
}

/// ## Raw Fd
///
/// A plain descriptor number of this process.
#[derive(Debug, Clone, Copy)]
pub struct RawFd {
    pub fd: i32,
}

impl OpFd for RawFd {
    open spec fn spec_sqe_flag() -> u8 {
        0
    }

    open spec fn spec_nop_flag() -> u32 {
        NopFlags::FILE
    }

    open spec fn spec_raw_fd(&self) -> i32 {
        self.fd
    }

    fn sqe_flag() -> (r: u8) {
        0
    }

    fn nop_flag() -> (r: u32) {
        NopFlags::FILE
    }

    fn raw_fd(&self) -> (r: i32) {
        self.fd
    }
}

/// ## Nop
#[derive(Debug, Clone, Copy)]
pub struct Nop {
    pub opcode: u8,
    pub flags: u8,
    pub fd: i32,
    pub len: u32,
    pub nop_flags: u32,
    pub user_data: u64,
    pub buf_index: u16,
}

impl Nop {
    pub fn new() -> (r: Self)
        ensures
            r == (Nop {
                opcode: OP_NOP,
                flags: 0,
                fd: -1i32,
                len: 0,
                nop_flags: NopFlags::NONE,
                user_data: 0,
                buf_index: 0,
            }),
    {
        Nop {
            opcode: OP_NOP,
            flags: 0,
            fd: -1,
            len: 0,
            nop_flags: NopFlags::NONE,
            user_data: 0,
            buf_index: 0,
        }
    }

    pub fn set_fd<F: OpFd>(self, fd: &F) -> (r: Self)
        ensures
            r == (Nop { fd: fd.spec_raw_fd(), nop_flags: self.nop_flags | F::spec_nop_flag(), ..self }),
    {
        let mut s = self;
        s.fd = fd.raw_fd();
        s.nop_flags = s.nop_flags | F::nop_flag();
        s
    }

    pub fn set_buf_index(self, buf_index: u16) -> (r: Self)
        ensures
            r == (Nop { buf_index, nop_flags: self.nop_flags | NopFlags::FIXED_BUFFER, ..self }),
    {
        let mut s = self;
        s.buf_index = buf_index;
        s.nop_flags = s.nop_flags | NopFlags::FIXED_BUFFER;
        s
    }

    pub fn set_user_data(self, user_data: u64) -> (r: Self)
        ensures
            r == (Nop { user_data, ..self }),
    {
        let mut s = self;
        s.user_data = user_data;
        s
    }

    /// Post no completion when the operation succeeds.
    pub fn skip_cqe(self) -> (r: Self)
        ensures
            r == (Nop { flags: self.flags | SQE_CQE_SKIP_SUCCESS, ..self }),
    {
        let mut s = self;
        s.flags = s.flags | SQE_CQE_SKIP_SUCCESS;
        s
    }

    /// Complete through the task-work path.
    pub fn enable_tw(self) -> (r: Self)
        ensures
            r == (Nop { nop_flags: self.nop_flags | NopFlags::TW, ..self }),
    {
        let mut s = self;
        s.nop_flags = s.nop_flags | NopFlags::TW;
        s
    }
}

impl Op for Nop {
    open spec fn spec_words(&self) -> Seq<u64> {
        seq![
            spec_head_word(self.opcode, self.flags, 0, self.fd),
            0,
            0,
            spec_pair(self.len, self.nop_flags),
            self.user_data,
            self.buf_index as u64,
            0,
            0,
        ]
    }

    open spec fn spec_opcode() -> u8 {
        OP_NOP
    }

    fn op_code() -> (r: u8) {
        OP_NOP
    }

    fn into_sqe(self) -> (r: Sqe64) {
        let r = Sqe64 {
            raw: [
                head_word(self.opcode, self.flags, 0, self.fd),
                0,
                0,
                pair(self.len, self.nop_flags),
                self.user_data,
                self.buf_index as u64,
                0,
                0,
            ],
        };
        assert(r.raw@ =~= self.spec_words());
        r
    }
}

/// ## Nop128
///
/// The no-op of the 128-byte class; its two extension words come back in
/// a 32-byte completion.
#[derive(Debug, Clone, Copy)]
pub struct Nop128 {
    pub opcode: u8,
    pub flags: u8,
    pub fd: i32,
    pub ext_data1: u64,
    pub ext_data2: u64,
    pub len: u32,
    pub nop_flags: u32,
    pub user_data: u64,
    pub buf_index: u16,
}

/// A fresh 128-byte no-op.
pub open spec fn spec_nop128_new() -> Nop128 {
    Nop128 {
        opcode: OP_NOP128,
        flags: 0,
        fd: -1i32,
        ext_data1: 0,
        ext_data2: 0,
        len: 0,
        nop_flags: NopFlags::NONE,
        user_data: 0,
        buf_index: 0,
    }
}

/// Words of the entry that pads a mixed ring up to its wrap: a 128-byte
/// no-op that posts no completion.
pub open spec fn spec_padding() -> Seq<u64> {
    (Nop128 { flags: spec_nop128_new().flags | SQE_CQE_SKIP_SUCCESS, ..spec_nop128_new() }).spec_words()
}

/// The padding entry of a mixed ring.
pub fn padding() -> (r: Sqe64)
    ensures
        r.raw@ == spec_padding(),
{
    Nop128::new().skip_cqe().into_sqe()
}

impl Nop128 {
    pub fn new() -> (r: Self)
        ensures
            r == spec_nop128_new(),
    {
        Nop128 {
            opcode: OP_NOP128,
            flags: 0,
            fd: -1,
            ext_data1: 0,
            ext_data2: 0,
            len: 0,
            nop_flags: NopFlags::NONE,
            user_data: 0,
            buf_index: 0,
        }
    }

    pub fn set_fd<F: OpFd>(self, fd: &F) -> (r: Self)
        ensures
            r == (Nop128 {
                fd: fd.spec_raw_fd(),
                nop_flags: self.nop_flags | F::spec_nop_flag(),
                ..self
            }),
    {
        let mut s = self;
        s.fd = fd.raw_fd();
        s.nop_flags = s.nop_flags | F::nop_flag();
        s
    }

    pub fn set_buf_index(self, buf_index: u16) -> (r: Self)
        ensures
            r == (Nop128 { buf_index, nop_flags: self.nop_flags | NopFlags::FIXED_BUFFER, ..self }),
    {
        let mut s = self;
        s.buf_index = buf_index;
        s.nop_flags = s.nop_flags | NopFlags::FIXED_BUFFER;
        s
    }

    pub fn set_ext_data(self, ext_data: [u64; 2]) -> (r: Self)
        ensures
            r == (Nop128 {
                ext_data1: ext_data@[0],
                ext_data2: ext_data@[1],
                nop_flags: self.nop_flags | NopFlags::CQE32,
                ..self
            }),
    {
        let mut s = self;
        s.ext_data1 = ext_data[0];
        s.ext_data2 = ext_data[1];
        s.nop_flags = s.nop_flags | NopFlags::CQE32;
        s
    }

    pub fn set_user_data(self, user_data: u64) -> (r: Self)
        ensures
            r == (Nop128 { user_data, ..self }),
    {
        let mut s = self;
        s.user_data = user_data;
        s
    }

    pub fn skip_cqe(self) -> (r: Self)
        ensures
            r == (Nop128 { flags: self.flags | SQE_CQE_SKIP_SUCCESS, ..self }),
    {
        let mut s = self;
        s.flags = s.flags | SQE_CQE_SKIP_SUCCESS;
        s
    }

    pub fn enable_tw(self) -> (r: Self)
        ensures
            r == (Nop128 { nop_flags: self.nop_flags | NopFlags::TW, ..self }),
    {
        let mut s = self;
        s.nop_flags = s.nop_flags | NopFlags::TW;
        s
    }
}

impl Op for Nop128 {
    open spec fn spec_words(&self) -> Seq<u64> {
        seq![
            spec_head_word(self.opcode, self.flags, 0, self.fd),
            self.ext_data1,
            self.ext_data2,
            spec_pair(self.len, self.nop_flags),
            self.user_data,
            self.buf_index as u64,
            0,
            0,
        ]
    }

    open spec fn spec_opcode() -> u8 {
        OP_NOP128
    }

    fn op_code() -> (r: u8) {
        OP_NOP128
    }

    fn into_sqe(self) -> (r: Sqe64) {
        let r = Sqe64 {
            raw: [
                head_word(self.opcode, self.flags, 0, self.fd),
                self.ext_data1,
                self.ext_data2,
                pair(self.len, self.nop_flags),
                self.user_data,
                self.buf_index as u64,
                0,
                0,
            ],
        };
        assert(r.raw@ =~= self.spec_words());
        r
    }
}

/// Protection-information attribute of a read or write.
#[derive(Debug, Clone, Copy, Default)]
pub struct IoUringPiAttr {
    pub ptr: u64,
    pub mask: u64,
}

/// ## Read
///
/// Read into a buffer of this process, given by its address and length.
#[derive(Debug, Clone, Copy)]
pub struct Read {
    pub opcode: u8,
    pub flags: u8,
    pub ioprio: u16,
    pub fd: i32,
    pub offset: u64,
    pub ptr: u64,
    pub len: u32,
    pub rw_flags: u32,
    pub user_data: u64,
    pub personality: u16,
    pub pi_attr: IoUringPiAttr,
}

impl Read {
    /// Read up to `len` bytes from `fd` into the buffer at address `ptr`.
    pub fn new<F: OpFd>(fd: &F, ptr: u64, len: u32) -> (r: Self)
        ensures
            r == (Read {
                opcode: OP_READ,
                flags: F::spec_sqe_flag(),
                ioprio: 0,
                fd: fd.spec_raw_fd(),
                offset: 0,
                ptr,
                len,
                rw_flags: 0,
                user_data: 0,
                personality: 0,
                pi_attr: IoUringPiAttr { ptr: 0, mask: 0 },
            }),
    {
        Read {
            opcode: OP_READ,
            flags: F::sqe_flag(),
            ioprio: 0,
            fd: fd.raw_fd(),
            offset: 0,
            ptr,
            len,
            rw_flags: 0,
            user_data: 0,
            personality: 0,
            pi_attr: IoUringPiAttr { ptr: 0, mask: 0 },
        }
    }

    pub fn set_user_data(self, user_data: u64) -> (r: Self)
        ensures
            r == (Read { user_data, ..self }),
    {
        let mut s = self;
        s.user_data = user_data;
        s
    }
}

impl Op for Read {
    open spec fn spec_words(&self) -> Seq<u64> {
        seq![
            spec_head_word(self.opcode, self.flags, self.ioprio, self.fd),
            self.offset,
            self.ptr,
            spec_pair(self.len, self.rw_flags),
            self.user_data,
            (self.personality as u64) << 16u64,
            self.pi_attr.ptr,
            self.pi_attr.mask,
        ]
    }

    open spec fn spec_opcode() -> u8 {
        OP_READ
    }

    fn op_code() -> (r: u8) {
        OP_READ
    }

    fn into_sqe(self) -> (r: Sqe64) {
        let r = Sqe64 {
            raw: [
                head_word(self.opcode, self.flags, self.ioprio, self.fd),
                self.offset,
                self.ptr,
                pair(self.len, self.rw_flags),
                self.user_data,
                (self.personality as u64) << 16u64,
                self.pi_attr.ptr,
                self.pi_attr.mask,
            ],
        };
        assert(r.raw@ =~= self.spec_words());
        r
    }
}

/// Opcodes, as the SQE class they need.
pub trait Opcode {
    spec fn spec_is_sqe128(&self) -> bool;

    /// Does this opcode ask for a 128-byte entry?
    fn is_sqe128(&self) -> (r: bool)
        ensures
            r == self.spec_is_sqe128(),
    ;
}

impl Opcode for u8 {
    open spec fn spec_is_sqe128(&self) -> bool {
        sqe::spec_is_sqe128_op(*self)
    }

    fn is_sqe128(&self) -> (r: bool) {
        *self == OP_NOP128 || *self == crate::flags::OP_URING_CMD128
    }
}

} // verus!
