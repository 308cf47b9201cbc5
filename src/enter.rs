//! The enter call's arguments and the ring-descriptor registration: which
//! descriptor and flags each enter call carries, and when registering is
//! refused. The calls themselves are made by the embedding program.
use std::marker::PhantomData;
use vstd::prelude::*;
use crate::error::Error;
use crate::flags::{
    ENTER_NO_IOWAIT, ENTER_REGISTERED_RING, FEAT_NO_IOWAIT, FEAT_REG_REG_RING, contains, has_flag,
};
use crate::mode::{self, Mode};
use crate::params::IoUringParams;

verus! {

/// Argument of the register call for ring descriptors (`io_uring_rsrc_update`).
#[derive(Debug, Clone, Copy, PartialEq, Eq, Structural)]
pub struct IoUringRsrcUpdate {
    pub offset: u32,
    pub resv: u32,
    pub data: u64,
}

/// Arguments of registering and unregistering a ring descriptor.
pub trait RegisterRingFd: Sized {
    spec fn spec_new(fd: i32) -> Self;

    spec fn spec_unregister(idx: u32) -> Self;

    /// Register `fd` in the first free slot.
    fn new(fd: i32) -> (r: Self)
        ensures
            r == Self::spec_new(fd),
    ;

    /// Release the registration at slot `idx`.
    fn unregister(idx: u32) -> (r: Self)
        ensures
            r == Self::spec_unregister(idx),
    ;
}

impl RegisterRingFd for IoUringRsrcUpdate {
    /// Offset `u32::MAX` lets the kernel pick the slot.
    open spec fn spec_new(fd: i32) -> Self {
        IoUringRsrcUpdate { offset: u32::MAX, resv: 0, data: fd as u64 }
    }

    open spec fn spec_unregister(idx: u32) -> Self {
        IoUringRsrcUpdate { offset: idx, resv: 0, data: 0 }
    }

    fn new(fd: i32) -> (r: Self) {
        IoUringRsrcUpdate { offset: u32::MAX, resv: 0, data: fd as u64 }
    }

    fn unregister(idx: u32) -> (r: Self) {
        IoUringRsrcUpdate { offset: idx, resv: 0, data: 0 }
    }
}

/// ## Uring Enter
///
/// The descriptor (the ring's own, or its registered index) and the flags
/// that every enter call carries.
#[derive(Debug)]
pub struct UringEnter<M> {
    pub enter_fd: i32,
    pub enter_flags: u32,
    pub features: u32,
    /// Refuse what the kernel did not report as a feature.
    pub feature_check: bool,
    pub marker: PhantomData<M>,
}

impl<M: Mode> UringEnter<M> {
    /// Enter arguments of the ring `fd` set up with `params`.
    pub fn new(fd: i32, params: &IoUringParams, feature_check: bool) -> (r: Self)
        ensures
            r.enter_fd == fd,
            r.enter_flags == mode::spec_enter_flag(M::ty()),
            r.features == params.features,
            r.feature_check == feature_check,
    {
        UringEnter {
            enter_fd: fd,
            enter_flags: M::kind().enter_flag(),
            features: params.features,
            feature_check,
            marker: PhantomData,
        }
    }

    pub fn features(&self) -> (r: u32)
        ensures
            r == self.features,
    {
        self.features
    }

    /// Set or clear the no-iowait flag of the enter calls; without the
    /// kernel feature, and with the check on, nothing changes.
    pub fn set_iowait(&mut self, enable: bool)
        ensures
            final(self).enter_fd == old(self).enter_fd,
            final(self).features == old(self).features,
            final(self).feature_check == old(self).feature_check,
            final(self).enter_flags == if old(self).feature_check && !has_flag(
                old(self).features,
                FEAT_NO_IOWAIT,
            ) {
                old(self).enter_flags
            } else if enable {
                old(self).enter_flags | ENTER_NO_IOWAIT
            } else {
                old(self).enter_flags & !ENTER_NO_IOWAIT
            },
    {
        if self.feature_check && !contains(self.features, FEAT_NO_IOWAIT) {
            return ;
        }
        if enable {
            self.enter_flags = self.enter_flags | ENTER_NO_IOWAIT;
        } else {
            self.enter_flags = self.enter_flags & !ENTER_NO_IOWAIT;
        }
    }

    pub fn is_ring_registered(&self) -> (r: bool)
        ensures
            r == has_flag(self.enter_flags, ENTER_REGISTERED_RING),
    {
        contains(self.enter_flags, ENTER_REGISTERED_RING)
    }

    /// Flags of an enter call that asks for `flags`.
    pub fn enter_flags(&self, flags: u32) -> (r: u32)
        ensures
            r == self.enter_flags | flags,
    {
        self.enter_flags | flags
    }

    /// The register call that registers the ring descriptor, or why there
    /// is none: the feature is missing (when checked), or the descriptor
    /// is already registered. No call is to be made on an error.
    pub fn register_ring_fd(&self) -> (r: Result<IoUringRsrcUpdate, Error>)
        ensures
            r == spec_register_request(*self),
    {
        if self.feature_check && !contains(self.features, FEAT_REG_REG_RING) {
            return Err(Error::FeatureNotSupported(FEAT_REG_REG_RING));
        }
        if self.is_ring_registered() {
            return Err(Error::RingFdRegistered);
        }
        Ok(IoUringRsrcUpdate::new(self.enter_fd))
    }

    /// Take the outcome of the register call: `num` descriptors were
    /// registered, the ring's at slot `offset`. From then on enter calls
    /// carry the slot and the registered-ring flag.
    pub fn ring_fd_registered(&mut self, num: u32, offset: u32) -> (r: Result<(), Error>)
        ensures
            r is Ok <==> num == 1,
            r is Err ==> r == Err::<(), Error>(Error::RegisterRingFdFailed) && *final(self) == *old(
                self,
            ),
            r is Ok ==> final(self).enter_fd == offset as i32 && final(self).enter_flags == old(
                self,
            ).enter_flags | ENTER_REGISTERED_RING && final(self).features == old(self).features
                && final(self).feature_check == old(self).feature_check,
    {
        if num != 1 {
            return Err(Error::RegisterRingFdFailed);
        }
        self.enter_fd = offset as i32;
        self.enter_flags = self.enter_flags | ENTER_REGISTERED_RING;
        Ok(())
    }

    /// The unregister call to make when the ring is released: one exactly
    /// when the descriptor is registered.
    pub fn unregister_ring_fd(&self) -> (r: Option<IoUringRsrcUpdate>)
        ensures
            r is Some <==> has_flag(self.enter_flags, ENTER_REGISTERED_RING),
            r matches Some(u) ==> u == IoUringRsrcUpdate::spec_unregister(self.enter_fd as u32),
    {
        if self.is_ring_registered() {
            Some(IoUringRsrcUpdate::unregister(self.enter_fd as u32))
        } else {
            None
        }
    }
}

/// What registering the ring descriptor asks for, in this state.
pub open spec fn spec_register_request<M>(e: UringEnter<M>) -> Result<IoUringRsrcUpdate, Error> {
    if e.feature_check && !has_flag(e.features, FEAT_REG_REG_RING) {
        Err(Error::FeatureNotSupported(FEAT_REG_REG_RING))
    } else if has_flag(e.enter_flags, ENTER_REGISTERED_RING) {
        Err(Error::RingFdRegistered)
    } else {
        Ok(IoUringRsrcUpdate::spec_new(e.enter_fd))
    }
}

/// Registering twice is refused: once the registered flag is set, the
/// request is an error, so no register call is made.
pub proof fn lemma_register_while_registered_refused<M>(e: UringEnter<M>)
    requires
        has_flag(e.enter_flags, ENTER_REGISTERED_RING),
    ensures
        spec_register_request(e) is Err,
{
}

/// After a registration has succeeded, a second request to register is
/// refused.
pub proof fn lemma_register_twice_refused<M>(e: UringEnter<M>, offset: u32)
    ensures
        spec_register_request(
            UringEnter {
                enter_fd: offset as i32,
                enter_flags: e.enter_flags | ENTER_REGISTERED_RING,
                ..e
            },
        ) is Err,
{
    let f = e.enter_flags;
    assert((f | 16u32) & 16u32 == 16u32) by (bit_vector);
}

} // verus!
