//! Setup arguments: a fluent builder of the parameter block, the sizes of
//! the ring regions it implies, and the checks on what the kernel reports.
use std::marker::PhantomData;
use vstd::prelude::*;
use crate::cqe::{self, Cqe};
use crate::error::Error;
use crate::flags::{
    FEAT_NODROP, FEAT_SINGLE_MMAP, SETUP_ATTACH_WQ, SETUP_CLAMP, SETUP_COOP_TASKRUN, SETUP_CQSIZE,
    SETUP_DEFER_TASKRUN, SETUP_HYBRID_IOPOLL, SETUP_IOPOLL, SETUP_NO_MMAP, SETUP_NO_SQARRAY,
    SETUP_REGISTERED_FD_ONLY, SETUP_R_DISABLED, SETUP_SINGLE_ISSUER, SETUP_SQPOLL, SETUP_SQ_AFF,
    SETUP_SUBMIT_ALL, SETUP_TASKRUN_FLAG, contains, has_flag,
};
use crate::mode::{self, Iopoll, Mode, Sqpoll};
use crate::params::{IoUringParams, zero_params};
use crate::sqe::{self, Sqe};

verus! {

/// Idle time, in milliseconds, after which the kernel's SQ poller sleeps.
pub const DEFAULT_SQ_POLL_IDLE: u32 = 1000;

/// `p` with the bits of `f` added to its setup flags.
pub open spec fn flagged(p: IoUringParams, f: u32) -> IoUringParams {
    IoUringParams { flags: p.flags | f, ..p }
}

/// Setup flags that the three type parameters select.
pub open spec fn spec_class_flags(m: mode::Ty, s: sqe::Ty, c: cqe::Ty) -> u32 {
    sqe::spec_setup_flag(s) | cqe::spec_setup_flag(c) | mode::spec_setup_flag(m)
}

/// Bytes of the submission index array.
pub open spec fn spec_sq_indices_mem(p: IoUringParams) -> int {
    if has_flag(p.flags, SETUP_NO_SQARRAY) {
        0
    } else {
        p.sq_entries * 4
    }
}

/// Bytes of the SQE array.
pub open spec fn spec_sqes_mem(p: IoUringParams, s: sqe::Ty) -> int {
    p.sq_entries * sqe::spec_sqe_size(s)
}

/// Bytes of the CQE array.
pub open spec fn spec_cqes_mem(p: IoUringParams, c: cqe::Ty) -> int {
    p.cq_entries * cqe::spec_cqe_size(c)
}

/// ## Uring Args
#[derive(Debug)]
pub struct UringArgs<M, S, C> {
    pub params: IoUringParams,
    pub marker: PhantomData<(M, S, C)>,
}

impl<M: Mode, S: Sqe, C: Cqe> UringArgs<M, S, C> {
    /// Arguments for a ring of `entries` submission slots, with the flags
    /// of its mode and entry classes.
    pub fn new(entries: u32) -> (r: Self)
        ensures
            r.params == (IoUringParams {
                sq_entries: entries,
                flags: spec_class_flags(M::ty(), S::ty(), C::ty()),
                ..zero_params()
            }),
    {
        let mut params = IoUringParams::zeroed();
        params.sq_entries = entries;
        params.flags = S::kind().setup_flag() | C::kind().setup_flag() | M::kind().setup_flag();
        UringArgs { params, marker: PhantomData }
    }

    pub fn params(&self) -> (r: &IoUringParams)
        ensures
            *r == self.params,
    {
        &self.params
    }

    fn with_flag(self, f: u32) -> (r: Self)
        ensures
            r.params == flagged(self.params, f),
    {
        let mut s = self;
        s.params.flags = s.params.flags | f;
        s
    }

    pub fn sqsize(self, entries: u32) -> (r: Self)
        ensures
            r.params == (IoUringParams { sq_entries: entries, ..self.params }),
    {
        let mut s = self;
        s.params.sq_entries = entries;
        s
    }

    pub fn iopoll(self) -> (r: Self)
        ensures
            r.params == flagged(self.params, SETUP_IOPOLL),
    {
        self.with_flag(SETUP_IOPOLL)
    }

    /// A kernel thread polls the submission ring; it sleeps after `idle`
    /// milliseconds without work.
    pub fn sqpoll(self, idle: u32) -> (r: Self)
        ensures
            r.params == (IoUringParams { sq_thread_idle: idle, ..flagged(self.params, SETUP_SQPOLL) }),
    {
        let mut s = self.with_flag(SETUP_SQPOLL);
        s.params.sq_thread_idle = idle;
        s
    }

    pub fn sqpoll_cpu(self, cpu: u32) -> (r: Self)
        ensures
            r.params == (IoUringParams { sq_thread_cpu: cpu, ..flagged(self.params, SETUP_SQ_AFF) }),
    {
        let mut s = self.with_flag(SETUP_SQ_AFF);
        s.params.sq_thread_cpu = cpu;
        s
    }

    pub fn cqsize(self, entries: u32) -> (r: Self)
        ensures
            r.params == (IoUringParams { cq_entries: entries, ..flagged(self.params, SETUP_CQSIZE) }),
    {
        let mut s = self.with_flag(SETUP_CQSIZE);
        s.params.cq_entries = entries;
        s
    }

    pub fn clamp(self) -> (r: Self)
        ensures
            r.params == flagged(self.params, SETUP_CLAMP),
    {
        self.with_flag(SETUP_CLAMP)
    }

    /// Share the async worker pool of the ring whose descriptor is `fd`.
    pub fn attach_wq(self, fd: i32) -> (r: Self)
        ensures
            r.params == (IoUringParams { wq_fd: fd as u32, ..flagged(self.params, SETUP_ATTACH_WQ) }),
    {
        let mut s = self.with_flag(SETUP_ATTACH_WQ);
        s.params.wq_fd = fd as u32;
        s
    }

    pub fn r_disabled(self) -> (r: Self)
        ensures
            r.params == flagged(self.params, SETUP_R_DISABLED),
    {
        self.with_flag(SETUP_R_DISABLED)
    }

    pub fn submit_all(self) -> (r: Self)
        ensures
            r.params == flagged(self.params, SETUP_SUBMIT_ALL),
    {
        self.with_flag(SETUP_SUBMIT_ALL)
    }

    pub fn coop_taskrun(self) -> (r: Self)
        requires
            has_flag(self.params.flags, SETUP_IOPOLL),
        ensures
            r.params == flagged(self.params, SETUP_COOP_TASKRUN),
    {
        self.with_flag(SETUP_COOP_TASKRUN)
    }

    pub fn taskrun_flag(self) -> (r: Self)
        requires
            has_flag(self.params.flags, SETUP_IOPOLL),
        ensures
            r.params == flagged(self.params, SETUP_TASKRUN_FLAG),
    {
        self.with_flag(SETUP_TASKRUN_FLAG)
    }

    pub fn single_issuer(self) -> (r: Self)
        ensures
            r.params == flagged(self.params, SETUP_SINGLE_ISSUER),
    {
        self.with_flag(SETUP_SINGLE_ISSUER)
    }

    pub fn defer_taskrun(self) -> (r: Self)
        requires
            has_flag(self.params.flags, SETUP_IOPOLL),
            has_flag(self.params.flags, SETUP_SINGLE_ISSUER),
        ensures
            r.params == flagged(self.params, SETUP_DEFER_TASKRUN),
    {
        self.with_flag(SETUP_DEFER_TASKRUN)
    }

    pub fn registered_fd_only(self) -> (r: Self)
        requires
            has_flag(self.params.flags, SETUP_NO_MMAP),
        ensures
            r.params == flagged(self.params, SETUP_REGISTERED_FD_ONLY),
    {
        self.with_flag(SETUP_REGISTERED_FD_ONLY)
    }

    pub fn no_sqarray(self) -> (r: Self)
        ensures
            r.params == flagged(self.params, SETUP_NO_SQARRAY),
    {
        self.with_flag(SETUP_NO_SQARRAY)
    }

    pub fn hybrid_iopoll(self) -> (r: Self)
        requires
            has_flag(self.params.flags, SETUP_IOPOLL),
        ensures
            r.params == flagged(self.params, SETUP_HYBRID_IOPOLL),
    {
        self.with_flag(SETUP_HYBRID_IOPOLL)
    }

    /// The rings are allocated by this process (the anonymous arena)
    /// rather than by the kernel.
    pub fn no_mmap(self) -> (r: Self)
        ensures
            r.params == flagged(self.params, SETUP_NO_MMAP),
    {
        self.with_flag(SETUP_NO_MMAP)
    }

    pub fn sq_indices_mem(&self) -> (r: u64)
        ensures
            r == spec_sq_indices_mem(self.params),
            r <= 0xffff_ffffu64 * 4,
    {
        if contains(self.params.flags, SETUP_NO_SQARRAY) {
            0
        } else {
            self.params.sq_entries as u64 * 4
        }
    }

    pub fn sqes_mem(&self) -> (r: u64)
        ensures
            r == spec_sqes_mem(self.params, S::ty()),
            r <= 0xffff_ffffu64 * 128,
    {
        let n = self.params.sq_entries as u64;
        let z = S::kind().setup_sqe_size() as u64;
        assert(n * z <= 0xffff_ffffu64 * 128) by (nonlinear_arith)
            requires
                n <= 0xffff_ffffu64,
                z <= 128,
        ;
        n * z
    }

    pub fn cqes_mem(&self) -> (r: u64)
        ensures
            r == spec_cqes_mem(self.params, C::ty()),
            r <= 0xffff_ffffu64 * 32,
    {
        let n = self.params.cq_entries as u64;
        let z = C::kind().setup_cqe_size() as u64;
        assert(n * z <= 0xffff_ffffu64 * 32) by (nonlinear_arith)
            requires
                n <= 0xffff_ffffu64,
                z <= 32,
        ;
        n * z
    }

    /// Bytes of the SQ ring: its header up to the index array, and the array.
    pub fn sq_mem(&self) -> (r: u64)
        ensures
            r == self.params.sq_off.array + spec_sq_indices_mem(self.params),
    {
        self.params.sq_off.array as u64 + self.sq_indices_mem()
    }

    /// Bytes of the CQ ring: its header up to the CQEs, and the CQEs.
    pub fn cq_mem(&self) -> (r: u64)
        ensures
            r == self.params.cq_off.cqes + spec_cqes_mem(self.params, C::ty()),
    {
        self.params.cq_off.cqes as u64 + self.cqes_mem()
    }

    /// Bytes of one region holding both rings and the index array.
    pub fn ring_mem(&self) -> (r: u64)
        ensures
            r == self.params.cq_off.cqes + spec_cqes_mem(self.params, C::ty())
                + spec_sq_indices_mem(self.params),
    {
        self.params.cq_off.cqes as u64 + self.cqes_mem() + self.sq_indices_mem()
    }

    /// Complete the setup: take the parameter block as the kernel's setup
    /// call returned it, and check the features that the library relies on
    /// when `check` is set. No ring is to be built from a failed setup.
    pub fn setup(&mut self, reported: IoUringParams, check: bool) -> (r: Result<(), Error>)
        ensures
            final(self).params == reported,
            r == spec_setup_result(reported, check),
    {
        self.params = reported;
        if check {
            check_setup_features(reported.features)
        } else {
            Ok(())
        }
    }
}

/// What the feature check returns for the reported feature bits.
pub open spec fn check_setup_features_result(features: u32) -> Result<(), Error> {
    if !has_flag(features, FEAT_SINGLE_MMAP) {
        Err(Error::FeatureNotSupported(FEAT_SINGLE_MMAP))
    } else if !has_flag(features, FEAT_NODROP) {
        Err(Error::FeatureNotSupported(FEAT_NODROP))
    } else {
        Ok(())
    }
}

/// Outcome of completing a setup whose kernel reported `reported`.
pub open spec fn spec_setup_result(reported: IoUringParams, check: bool) -> Result<(), Error> {
    if check {
        check_setup_features_result(reported.features)
    } else {
        Ok(())
    }
}

/// Check that the kernel reported the features every ring relies on: one
/// mapping for both rings, and no dropped completions.
pub fn check_setup_features(features: u32) -> (r: Result<(), Error>)
    ensures
        r == check_setup_features_result(features),
{
    if !contains(features, FEAT_SINGLE_MMAP) {
        return Err(Error::FeatureNotSupported(FEAT_SINGLE_MMAP));
    }
    if !contains(features, FEAT_NODROP) {
        return Err(Error::FeatureNotSupported(FEAT_NODROP));
    }
    Ok(())
}

/// A setup that checks the kernel's features fails whenever the kernel does
/// not report that it never drops completions, whatever else it reports.
pub proof fn lemma_setup_needs_nodrop(reported: IoUringParams)
    requires
        !has_flag(reported.features, FEAT_NODROP),
    ensures
        spec_setup_result(reported, true) is Err,
        check_setup_features_result(reported.features) is Err,
{
}

/// Adding flags keeps those already set.
proof fn lemma_flag_kept(f: u32, g: u32, x: u32)
    requires
        f & x == x,
    ensures
        (f | g) & x == x,
{
    assert((f & x == x) ==> ((f | g) & x == x)) by (bit_vector);
}

/// A flag just added is set.
proof fn lemma_flag_set(f: u32, x: u32)
    ensures
        (f | x) & x == x,
{
    assert((f | x) & x == x) by (bit_vector);
}

impl Iopoll {
    /// Arguments of a completion-polling ring.
    pub fn new<S: Sqe, C: Cqe>(entries: u32) -> (r: UringArgs<Iopoll, S, C>)
        ensures
            r.params == (IoUringParams {
                sq_entries: entries,
                flags: spec_class_flags(mode::Ty::Iopoll, S::ty(), C::ty()) | SETUP_IOPOLL
                    | SETUP_CLAMP | SETUP_SUBMIT_ALL | SETUP_COOP_TASKRUN | SETUP_TASKRUN_FLAG
                    | SETUP_SINGLE_ISSUER | SETUP_DEFER_TASKRUN | SETUP_NO_SQARRAY
                    | SETUP_HYBRID_IOPOLL,
                ..zero_params()
            }),
    {
        let n = UringArgs::<Iopoll, S, C>::new(entries);
        let a0 = n.iopoll();
        let a1 = a0.clamp();
        let a2 = a1.submit_all();
        proof {
            lemma_flag_set(n.params.flags, SETUP_IOPOLL);
            lemma_flag_kept(a0.params.flags, SETUP_CLAMP, SETUP_IOPOLL);
            lemma_flag_kept(a1.params.flags, SETUP_SUBMIT_ALL, SETUP_IOPOLL);
        }
        let a3 = a2.coop_taskrun();
        proof {
            lemma_flag_kept(a2.params.flags, SETUP_COOP_TASKRUN, SETUP_IOPOLL);
        }
        let a4 = a3.taskrun_flag();
        let a5 = a4.single_issuer();
        proof {
            lemma_flag_kept(a3.params.flags, SETUP_TASKRUN_FLAG, SETUP_IOPOLL);
            lemma_flag_kept(a4.params.flags, SETUP_SINGLE_ISSUER, SETUP_IOPOLL);
            lemma_flag_set(a4.params.flags, SETUP_SINGLE_ISSUER);
        }
        let a6 = a5.defer_taskrun();
        let a7 = a6.no_sqarray();
        proof {
            lemma_flag_kept(a5.params.flags, SETUP_DEFER_TASKRUN, SETUP_IOPOLL);
            lemma_flag_kept(a6.params.flags, SETUP_NO_SQARRAY, SETUP_IOPOLL);
        }
        a7.hybrid_iopoll()
    }
}

impl Sqpoll {
    /// Arguments of a submission-polling ring.
    pub fn new<S: Sqe, C: Cqe>(entries: u32) -> (r: UringArgs<Sqpoll, S, C>)
        ensures
            r.params == (IoUringParams {
                sq_entries: entries,
                sq_thread_idle: DEFAULT_SQ_POLL_IDLE,
                flags: spec_class_flags(mode::Ty::Sqpoll, S::ty(), C::ty()) | SETUP_SQPOLL
                    | SETUP_CLAMP | SETUP_SUBMIT_ALL | SETUP_SINGLE_ISSUER | SETUP_NO_SQARRAY,
                ..zero_params()
            }),
    {
        UringArgs::<Sqpoll, S, C>::new(entries).sqpoll(DEFAULT_SQ_POLL_IDLE).clamp().submit_all()
            .single_issuer().no_sqarray()
    }
}

} // verus!
