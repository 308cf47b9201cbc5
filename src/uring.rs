//! The ring façade: the enter arguments and the two queues of one ring,
//! generic in its mode and entry classes.
use vstd::prelude::*;
use crate::completion::{Collector, CompletionQueue};
use crate::cqe::{Cqe, Cqe16, Cqe32, CqeMix};
use crate::enter::{IoUringRsrcUpdate, UringEnter, spec_register_request};
use crate::error::Error;
use crate::mode::Mode;
use crate::sqe::{Sqe, Sqe128, Sqe64, SqeMix};
use crate::submission::{SubmissionQueue, Submitter};

verus! {

/// ## Uring
pub struct Uring<'fd, M: Mode, S: Sqe, C: Cqe> {
    pub enter: UringEnter<M>,
    pub sq: SubmissionQueue<'fd, M, S>,
    pub cq: CompletionQueue<'fd, M, C>,
}

impl<'fd, M: Mode, S: Sqe, C: Cqe> Uring<'fd, M, S, C> {
    pub open spec fn wf(&self) -> bool {
        self.sq.wf() && self.cq.wf()
    }

    pub fn new(enter: UringEnter<M>, sq: SubmissionQueue<'fd, M, S>, cq: CompletionQueue<'fd, M, C>) -> (r: Self)
        ensures
            r.enter == enter,
            r.sq == sq,
            r.cq == cq,
    {
        Uring { enter, sq, cq }
    }

    /// The register call for the ring descriptor, or why none is made.
    pub fn register(&self) -> (r: Result<IoUringRsrcUpdate, Error>)
        ensures
            r == spec_register_request(self.enter),
    {
        self.enter.register_ring_fd()
    }

    pub fn submitter(&mut self) -> (r: Submitter<'_, 'fd, M, S>)
        requires
            old(self).wf(),
        ensures
            *r.queue == old(self).sq,
            *final(self) == *old(self),
            r.written@ == Seq::<(u32, Seq<u64>)>::empty(),
            r.published@ is None,
    {
        self.sq.submitter()
    }

    pub fn collector(&mut self) -> (r: Collector<'_, 'fd, M, C>)
        requires
            old(self).wf(),
        ensures
            *r.queue == old(self).cq,
            *final(self) == *old(self),
            r.published@ is None,
    {
        self.cq.collector()
    }

    /// The enter arguments, a submitter and a collector, together.
    pub fn borrow(&mut self) -> (r: (&UringEnter<M>, Submitter<'_, 'fd, M, S>, Collector<'_, 'fd, M, C>))
        requires
            old(self).wf(),
        ensures
            *r.0 == old(self).enter,
            *r.1.queue == old(self).sq,
            *r.2.queue == old(self).cq,
            *final(self) == *old(self),
            r.1.written@ == Seq::<(u32, Seq<u64>)>::empty(),
            r.1.published@ is None,
            r.2.published@ is None,
    {
        (&self.enter, self.sq.submitter(), self.cq.collector())
    }
}

pub type UringIo<'fd, M> = Uring<'fd, M, Sqe64, Cqe16>;

pub type Uring128<'fd, M> = Uring<'fd, M, Sqe128, Cqe32>;

pub type UringMix<'fd, M> = Uring<'fd, M, SqeMix, CqeMix>;

} // verus!
