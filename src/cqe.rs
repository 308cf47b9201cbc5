//! Completion entries: the 16-byte kernel CQE, its 32-byte extension and
//! the 16-byte slot of a mixed ring, held as native 64-bit words.
use vstd::prelude::*;
use crate::flags::{CQE_F_32, SETUP_CQE32, SETUP_CQE_MIXED};

verus! {

/// The entry classes a completion ring can be set up with.
#[derive(Debug, Clone, Copy, PartialEq, Eq, Structural)]
pub enum Ty {
    Cqe16,
    Cqe32,
    CqeMix,
}

/// Setup flag that selects a completion class.
pub open spec fn spec_setup_flag(t: Ty) -> u32 {
    match t {
        Ty::Cqe16 => 0,
        Ty::Cqe32 => SETUP_CQE32,
        Ty::CqeMix => SETUP_CQE_MIXED,
    }
}

/// Bytes of one slot of the CQE array for a completion class.
pub open spec fn spec_cqe_size(t: Ty) -> usize {
    match t {
        Ty::Cqe16 | Ty::CqeMix => 16,
        Ty::Cqe32 => 32,
    }
}

/// 64-bit words of one slot of the CQE array.
pub open spec fn spec_slot_words(t: Ty) -> usize {
    match t {
        Ty::Cqe16 | Ty::CqeMix => 2,
        Ty::Cqe32 => 4,
    }
}

impl Ty {
    pub fn setup_flag(&self) -> (r: u32)
        ensures
            r == spec_setup_flag(*self),
    {
        match self {
            Ty::Cqe16 => 0,
            Ty::Cqe32 => SETUP_CQE32,
            Ty::CqeMix => SETUP_CQE_MIXED,
        }
    }

    pub fn setup_cqe_size(&self) -> (r: usize)
        ensures
            r == spec_cqe_size(*self),
    {
        match self {
            Ty::Cqe16 | Ty::CqeMix => 16,
            Ty::Cqe32 => 32,
        }
    }

    pub fn slot_words(&self) -> (r: usize)
        ensures
            r == spec_slot_words(*self),
    {
        match self {
            Ty::Cqe16 | Ty::CqeMix => 2,
            Ty::Cqe32 => 4,
        }
    }
}

/// A CQE class, as a type parameter of rings and arguments.
pub trait Cqe: Sized {
    spec fn ty() -> Ty;

    fn kind() -> (r: Ty)
        ensures
            r == Self::ty(),
    ;

    /// The entry whose words, from the start of its slot, are `words`
    /// (four words: those of its slot and of the slot after it).
    spec fn spec_from_words(words: Seq<u64>) -> Self;

    /// Slots that the entry starting with these words takes in the ring.
    spec fn spec_slots(words: Seq<u64>) -> nat;

    fn from_words(words: [u64; 4]) -> (r: (Self, u32))
        ensures
            r.0 == Self::spec_from_words(words@),
            r.1 == Self::spec_slots(words@),
            r.1 == 1 || r.1 == 2,
    ;
}

/// Completion classes of a fixed size.
pub trait FixCqe {}

/// Flags of a completion: the high half of its second word.
pub open spec fn spec_cqe_flags(w1: u64) -> u32 {
    (w1 >> 32u64) as u32
}

/// Result of a completion: the low half of its second word.
pub open spec fn spec_cqe_res(w1: u64) -> i32 {
    (w1 & 0xffff_ffff) as u32 as i32
}

fn flags_of(w1: u64) -> (r: u32)
    ensures
        r == spec_cqe_flags(w1),
{
    (w1 >> 32u64) as u32
}

fn res_of(w1: u64) -> (r: i32)
    ensures
        r == spec_cqe_res(w1),
{
    (w1 & 0xffff_ffff) as u32 as i32
}

/// ## Cqe16
#[derive(Debug, Clone, Copy, Default)]
pub struct Cqe16 {
    pub raw: [u64; 2],
}

impl Cqe16 {
    pub const SETUP_CQE_SIZE: usize = 16;

    pub fn user_data(&self) -> (r: u64)
        ensures
            r == self.raw@[0],
    {
        self.raw[0]
    }

    pub fn res(&self) -> (r: i32)
        ensures
            r == spec_cqe_res(self.raw@[1]),
    {
        res_of(self.raw[1])
    }

    pub fn flags(&self) -> (r: u32)
        ensures
            r == spec_cqe_flags(self.raw@[1]),
    {
        flags_of(self.raw[1])
    }
}

impl Cqe for Cqe16 {
    open spec fn ty() -> Ty {
        Ty::Cqe16
    }

    fn kind() -> (r: Ty) {
        Ty::Cqe16
    }

    open spec fn spec_from_words(words: Seq<u64>) -> Self {
        Cqe16 { raw: [words[0], words[1]] }
    }

    open spec fn spec_slots(words: Seq<u64>) -> nat {
        1
    }

    fn from_words(words: [u64; 4]) -> (r: (Self, u32)) {
        (Cqe16 { raw: [words[0], words[1]] }, 1)
    }
}

impl FixCqe for Cqe16 {}

/// ## Cqe32
#[derive(Debug, Clone, Copy, Default)]
pub struct Cqe32 {
    pub raw: [u64; 2],
    pub ext: [u64; 2],
}

impl Cqe32 {
    pub const SETUP_CQE_SIZE: usize = 32;

    pub fn ext_data(&self) -> (r: &[u64; 2])
        ensures
            r@ == self.ext@,
    {
        &self.ext
    }

    pub fn user_data(&self) -> (r: u64)
        ensures
            r == self.raw@[0],
    {
        self.raw[0]
    }

    pub fn res(&self) -> (r: i32)
        ensures
            r == spec_cqe_res(self.raw@[1]),
    {
        res_of(self.raw[1])
    }

    pub fn flags(&self) -> (r: u32)
        ensures
            r == spec_cqe_flags(self.raw@[1]),
    {
        flags_of(self.raw[1])
    }
}

impl Cqe for Cqe32 {
    open spec fn ty() -> Ty {
        Ty::Cqe32
    }

    fn kind() -> (r: Ty) {
        Ty::Cqe32
    }

    open spec fn spec_from_words(words: Seq<u64>) -> Self {
        Cqe32 { raw: [words[0], words[1]], ext: [words[2], words[3]] }
    }

    open spec fn spec_slots(words: Seq<u64>) -> nat {
        1
    }

    fn from_words(words: [u64; 4]) -> (r: (Self, u32)) {
        (Cqe32 { raw: [words[0], words[1]], ext: [words[2], words[3]] }, 1)
    }
}

impl FixCqe for Cqe32 {}

/// ## Cqe Mixed
///
/// A 16-byte slot of a ring that takes both completion sizes. When its
/// flags carry the 32-byte bit, the two extension words fill the next slot.
#[derive(Debug, Clone, Copy, Default)]
pub struct CqeMix {
    pub raw: [u64; 2],
}

impl CqeMix {
    pub const SETUP_CQE_SIZE: usize = 16;

    /// Is this a 32-byte completion, with extension words in the next slot?
    pub fn is_cqe32(&self) -> (r: bool)
        ensures
            r == crate::flags::has_flag(spec_cqe_flags(self.raw@[1]), CQE_F_32),
    {
        crate::flags::contains(flags_of(self.raw[1]), CQE_F_32)
    }

    pub fn user_data(&self) -> (r: u64)
        ensures
            r == self.raw@[0],
    {
        self.raw[0]
    }

    pub fn res(&self) -> (r: i32)
        ensures
            r == spec_cqe_res(self.raw@[1]),
    {
        res_of(self.raw[1])
    }

    pub fn flags(&self) -> (r: u32)
        ensures
            r == spec_cqe_flags(self.raw@[1]),
    {
        flags_of(self.raw[1])
    }

    /// The slot holding a 16-byte completion.
    pub fn from_cqe16(cqe: Cqe16) -> (r: Self)
        ensures
            r.raw@ == cqe.raw@,
    {
        CqeMix { raw: cqe.raw }
    }
}

impl Cqe for CqeMix {
    open spec fn ty() -> Ty {
        Ty::CqeMix
    }

    fn kind() -> (r: Ty) {
        Ty::CqeMix
    }

    open spec fn spec_from_words(words: Seq<u64>) -> Self {
        CqeMix { raw: [words[0], words[1]] }
    }

    open spec fn spec_slots(words: Seq<u64>) -> nat {
        if crate::flags::has_flag(spec_cqe_flags(words[1]), CQE_F_32) {
            2
        } else {
            1
        }
    }

    fn from_words(words: [u64; 4]) -> (r: (Self, u32)) {
        if crate::flags::contains(flags_of(words[1]), CQE_F_32) {
            (CqeMix { raw: [words[0], words[1]] }, 2)
        } else {
            (CqeMix { raw: [words[0], words[1]] }, 1)
        }
    }
}

} // verus!
