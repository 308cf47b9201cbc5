//! The submission queue: a typed view of the shared SQ ring, and the
//! short-lived submitter that appends entries and publishes the tail.
use std::marker::PhantomData;
use std::sync::atomic::{AtomicU32, AtomicU64, Ordering};
use vstd::prelude::*;
use crate::flags::{MAX_SQ_ENTRIES, SQ_CQ_OVERFLOW, SQ_NEED_WAKEUP, SQ_TASKRUN, contains};
use crate::mode::{self, Iopoll, Mode, Sqpoll};
use crate::op::{padding, spec_padding};
use crate::ring::{
    lemma_slot_bound, lemma_wrap_to_zero, ring_shape, spec_slot,
};
use crate::sqe::{self, Sqe, Sqe128, Sqe64, SqeMix};

verus! {

/// 64-bit words of one slot of the SQE array.
pub open spec fn spec_slot_words(t: sqe::Ty) -> nat {
    match t {
        sqe::Ty::Sqe128 => 16,
        _ => 8,
    }
}

/// Ordering of the loads of the SQ head: the kernel moves it concurrently
/// only when it polls the ring itself.
pub open spec fn spec_head_order(m: mode::Ty) -> Ordering {
    match m {
        mode::Ty::Iopoll => Ordering::Relaxed,
        mode::Ty::Sqpoll => Ordering::Acquire,
    }
}

/// Ordering of the stores of the SQ tail: released to a polling kernel
/// thread; the enter call orders them otherwise.
pub open spec fn spec_tail_order(m: mode::Ty) -> Ordering {
    match m {
        mode::Ty::Iopoll => Ordering::Relaxed,
        mode::Ty::Sqpoll => Ordering::Release,
    }
}

fn head_order<M: Mode>() -> (r: Ordering)
    ensures
        r == spec_head_order(M::ty()),
{
    match M::kind() {
        mode::Ty::Iopoll => Ordering::Relaxed,
        mode::Ty::Sqpoll => Ordering::Acquire,
    }
}

fn tail_order<M: Mode>() -> (r: Ordering)
    ensures
        r == spec_tail_order(M::ty()),
{
    match M::kind() {
        mode::Ty::Iopoll => Ordering::Relaxed,
        mode::Ty::Sqpoll => Ordering::Release,
    }
}

/// ## Submission Queue
#[derive(Debug)]
pub struct SubmissionQueue<'fd, M, S> {
    pub sqes: &'fd [AtomicU64],
    pub k_head: &'fd AtomicU32,
    pub k_tail: &'fd AtomicU32,
    pub mask: u32,
    pub size: u32,
    pub k_flags: &'fd AtomicU32,
    pub k_dropped: &'fd AtomicU32,
    pub marker: PhantomData<(M, S)>,
}

impl<'fd, M: Mode, S: Sqe> SubmissionQueue<'fd, M, S> {
    /// The ring has a power-of-two size within the kernel's limit, and the
    /// SQE array holds one slot per entry.
    pub open spec fn wf(&self) -> bool {
        &&& ring_shape(self.size, self.mask)
        &&& self.size <= MAX_SQ_ENTRIES
        &&& self.sqes@.len() == self.size * spec_slot_words(S::ty())
    }

    /// A view of the shared SQ ring whose words are given; `None` unless
    /// its size and mask describe a ring the SQE array can hold.
    pub fn new(
        sqes: &'fd [AtomicU64],
        k_head: &'fd AtomicU32,
        k_tail: &'fd AtomicU32,
        k_flags: &'fd AtomicU32,
        k_dropped: &'fd AtomicU32,
        mask: u32,
        size: u32,
    ) -> (r: Option<Self>)
        ensures
            r is Some <==> (ring_shape(size, mask) && size <= MAX_SQ_ENTRIES && sqes@.len() == size
                * spec_slot_words(S::ty())),
            r matches Some(q) ==> q.wf() && q.sqes == sqes && q.k_head == k_head && q.k_tail
                == k_tail && q.k_flags == k_flags && q.k_dropped == k_dropped && q.mask == mask
                && q.size == size,
    {
        let words: usize = match S::kind() {
            sqe::Ty::Sqe128 => 16,
            _ => 8,
        };
        if !crate::ring::check_shape(size, mask) || size > MAX_SQ_ENTRIES {
            return None;
        }
        if sqes.len() != size as usize * words {
            return None;
        }
        Some(
            SubmissionQueue {
                sqes,
                k_head,
                k_tail,
                mask,
                size,
                k_flags,
                k_dropped,
                marker: PhantomData,
            },
        )
    }

    /// The kernel's flags word of the SQ ring.
    pub fn flags(&self, order: Ordering) -> u32
        requires
            !(order is Release),
            !(order is AcqRel),
    {
        self.k_flags.load(order)
    }

    /// Submissions the kernel dropped as invalid.
    pub fn dropped(&self) -> u32 {
        self.k_dropped.load(Ordering::Acquire)
    }

    /// Does the kernel's SQ poller sleep, waiting for a wake-up?
    pub fn need_wakeup(&self) -> bool {
        contains(self.flags(Ordering::Relaxed), SQ_NEED_WAKEUP)
    }

    /// Has the completion ring overflowed into the kernel's backlog?
    pub fn cq_overflow(&self) -> bool {
        contains(self.flags(Ordering::Relaxed), SQ_CQ_OVERFLOW)
    }

    /// Does task work wait to be run by an enter call?
    pub fn taskrun(&self) -> bool {
        contains(self.flags(Ordering::Relaxed), SQ_TASKRUN)
    }

    /// The slot that the counter value `idx` addresses.
    pub fn get_sqe(&self, idx: u32) -> (r: u32)
        ensures
            r == spec_slot(idx, self.mask),
            r <= self.mask,
    {
        proof {
            lemma_slot_bound(idx, self.mask);
        }
        idx & self.mask
    }

    /// The kernel's head, with the ordering of the mode.
    pub fn head(&self) -> u32 {
        self.k_head.load(head_order::<M>())
    }

    /// The published tail; only this process writes it.
    pub fn tail(&self) -> u32 {
        self.k_tail.load(Ordering::Relaxed)
    }

    /// Publish `tail` to the kernel, with the ordering of the mode.
    pub fn set_tail(&self, tail: u32) {
        self.k_tail.store(tail, tail_order::<M>());
    }

    /// A submitter that appends after the published tail.
    pub fn submitter<'s>(&'s mut self) -> (r: Submitter<'s, 'fd, M, S>)
        requires
            old(self).wf(),
        ensures
            *r.queue == *old(self),
            *final(self) == *old(self),
            r.written@ == Seq::<(u32, Seq<u64>)>::empty(),
            r.published@ is None,
    {
        let head = self.head();
        let tail = self.tail();
        Submitter { head, tail, queue: self, written: Ghost(Seq::empty()), published: Ghost(None) }
    }

    /// Store `words` into the SQE array from word `base` on.
    fn write_words(&self, base: usize, words: &[u64])
        requires
            base + words@.len() <= self.sqes@.len(),
    {
        let n: usize = self.sqes.len();
        let mut i: usize = 0;
        while i < words.len()
            invariant
                n == self.sqes@.len(),
                base + words@.len() <= self.sqes@.len(),
                i <= words@.len(),
            decreases words@.len() - i,
        {
            self.sqes[base + i].store(words[i], Ordering::Relaxed);
            i = i + 1;
        }
    }
}

/// ## Submitter
///
/// Holds a snapshot of the kernel's head and the authoritative tail; the
/// tail reaches the kernel when the submitter is updated or submits. A
/// scope that owns a submitter publishes its tail on exit.
pub struct Submitter<'s, 'fd, M: Mode, S: Sqe> {
    pub head: u32,
    pub tail: u32,
    pub queue: &'s SubmissionQueue<'fd, M, S>,
    /// Ghost record of what `push` writes, in order: slot and words. It
    /// is bookkeeping of the pushes, not checked against the SQE memory.
    pub written: Ghost<Seq<(u32, Seq<u64>)>>,
    /// The last tail this submitter published.
    pub published: Ghost<Option<u32>>,
}

impl<'s, 'fd, M: Mode, S: Sqe> Submitter<'s, 'fd, M, S> {
    /// Entries published or written and not yet consumed by the kernel.
    pub open spec fn spec_size(&self) -> u32 {
        self.tail.wrapping_sub(self.head)
    }

    pub open spec fn spec_is_full(&self) -> bool {
        self.spec_size() == self.queue.size
    }

    pub fn size(&self) -> (r: u32)
        ensures
            r == self.spec_size(),
    {
        self.tail.wrapping_sub(self.head)
    }

    pub fn is_full(&self) -> (r: bool)
        ensures
            r == self.spec_is_full(),
    {
        self.size() == self.queue.size
    }

    /// Take a new snapshot of the kernel's head.
    pub fn update_head(&mut self)
        ensures
            final(self).tail == old(self).tail,
            final(self).queue == old(self).queue,
            final(self).written == old(self).written,
            final(self).published == old(self).published,
    {
        self.head = self.queue.head();
    }

    /// Publish the tail to the kernel.
    pub fn update_tail(&mut self)
        ensures
            *final(self) == (Submitter { published: Ghost(Some(old(self).tail)), ..*old(self) }),
    {
        self.queue.set_tail(self.tail);
        self.published = Ghost(Some(self.tail));
    }

    /// Take a new head snapshot, then publish the tail.
    pub fn update(&mut self)
        ensures
            final(self).tail == old(self).tail,
            final(self).queue == old(self).queue,
            final(self).written == old(self).written,
            final(self).published == Some(old(self).tail),
    {
        self.update_head();
        self.update_tail();
    }

    /// Write one slot-sized entry at the tail and advance it by one.
    fn push_slot(&mut self, words: &[u64])
        requires
            old(self).queue.wf(),
            words@.len() == spec_slot_words(S::ty()),
        ensures
            *final(self) == (Submitter {
                tail: old(self).tail.wrapping_add(1),
                written: Ghost(old(self).written@.push((spec_slot(old(self).tail, old(self).queue.mask), words@))),
                ..*old(self)
            }),
    {
        let slot = self.queue.get_sqe(self.tail);
        let w: usize = words.len();
        assert(slot as int * w + w <= self.queue.sqes@.len()) by (nonlinear_arith)
            requires
                slot <= self.queue.mask,
                self.queue.mask == self.queue.size - 1,
                self.queue.sqes@.len() == self.queue.size * w,
        ;
        self.queue.write_words(slot as usize * w, words);
        self.tail = self.tail.wrapping_add(1);
        self.written = Ghost(self.written@.push((slot, words@)));
    }
}

impl<'s, 'fd, S: Sqe> Submitter<'s, 'fd, Iopoll, S> {
    /// Publish the tail and return the number of entries to hand to the
    /// enter call, which also waits for completions.
    pub fn submit(&mut self) -> (r: u32)
        ensures
            final(self).tail == old(self).tail,
            final(self).queue == old(self).queue,
            final(self).written == old(self).written,
            final(self).published == Some(old(self).tail),
            r == final(self).spec_size(),
    {
        self.update();
        self.size()
    }
}

impl<'s, 'fd, S: Sqe> Submitter<'s, 'fd, Sqpoll, S> {
    /// Publish the tail; the kernel's poller picks the entries up.
    pub fn submit(&mut self)
        ensures
            final(self).tail == old(self).tail,
            final(self).queue == old(self).queue,
            final(self).written == old(self).written,
            final(self).published == Some(old(self).tail),
    {
        self.update();
    }
}

/// Push an entry into a submission ring.
pub trait Submit<T>: Sized {
    /// The submitter writes into a well-formed ring.
    spec fn spec_ready(&self) -> bool;

    /// Is there room for `item`?
    spec fn spec_accepts(&self, item: T) -> bool;

    /// The submitter after `item` is written.
    spec fn spec_pushed(&self, item: T) -> Self;

    /// Write `item` after the tail; when the ring has no room, hand it back
    /// and change nothing.
    fn push(&mut self, item: T) -> (r: Result<(), T>)
        requires
            old(self).spec_ready(),
        ensures
            r is Ok <==> old(self).spec_accepts(item),
            r is Ok ==> *final(self) == old(self).spec_pushed(item),
            r matches Err(back) ==> back == item && *final(self) == *old(self),
    ;
}

/// The submitter after one slot-sized entry with `words` is written.
pub open spec fn spec_after_slot<'s, 'fd, M: Mode, S: Sqe>(s: Submitter<'s, 'fd, M, S>, words: Seq<u64>) -> Submitter<'s, 'fd, M, S> {
    Submitter {
        tail: s.tail.wrapping_add(1),
        written: Ghost(s.written@.push((spec_slot(s.tail, s.queue.mask), words))),
        ..s
    }
}

impl<'s, 'fd, M: Mode> Submit<Sqe64> for Submitter<'s, 'fd, M, Sqe64> {
    open spec fn spec_ready(&self) -> bool {
        self.queue.wf()
    }

    open spec fn spec_accepts(&self, item: Sqe64) -> bool {
        !self.spec_is_full()
    }

    open spec fn spec_pushed(&self, item: Sqe64) -> Self {
        spec_after_slot(*self, item.raw@)
    }

    fn push(&mut self, item: Sqe64) -> (r: Result<(), Sqe64>) {
        if self.is_full() {
            return Err(item);
        }
        self.push_slot(&item.raw);
        Ok(())
    }
}

impl<'s, 'fd, M: Mode> Submit<Sqe128> for Submitter<'s, 'fd, M, Sqe128> {
    open spec fn spec_ready(&self) -> bool {
        self.queue.wf()
    }

    open spec fn spec_accepts(&self, item: Sqe128) -> bool {
        !self.spec_is_full()
    }

    open spec fn spec_pushed(&self, item: Sqe128) -> Self {
        spec_after_slot(*self, item.raw@)
    }

    fn push(&mut self, item: Sqe128) -> (r: Result<(), Sqe128>) {
        if self.is_full() {
            return Err(item);
        }
        self.push_slot(&item.raw);
        Ok(())
    }
}

impl<'s, 'fd, M: Mode> Submit<Sqe64> for Submitter<'s, 'fd, M, SqeMix> {
    open spec fn spec_ready(&self) -> bool {
        self.queue.wf()
    }

    open spec fn spec_accepts(&self, item: Sqe64) -> bool {
        !self.spec_is_full()
    }

    open spec fn spec_pushed(&self, item: Sqe64) -> Self {
        spec_after_slot(*self, item.raw@)
    }

    fn push(&mut self, item: Sqe64) -> (r: Result<(), Sqe64>) {
        if self.is_full() {
            return Err(item);
        }
        self.push_slot(&item.raw);
        Ok(())
    }
}

/// Does a 128-byte entry at this tail cross the wrap of a mixed ring, so
/// that a padding entry goes first?
pub open spec fn spec_needs_padding(tail: u32, mask: u32) -> bool {
    tail.wrapping_add(1) & mask == 0
}

impl<'s, 'fd, M: Mode> Submit<Sqe128> for Submitter<'s, 'fd, M, SqeMix> {
    open spec fn spec_ready(&self) -> bool {
        self.queue.wf()
    }

    /// Two free slots, or three when padding goes first.
    open spec fn spec_accepts(&self, item: Sqe128) -> bool {
        if spec_needs_padding(self.tail, self.queue.mask) {
            self.spec_size() + 3 <= self.queue.size
        } else {
            self.spec_size() + 2 <= self.queue.size
        }
    }

    open spec fn spec_pushed(&self, item: Sqe128) -> Self {
        if spec_needs_padding(self.tail, self.queue.mask) {
            let t1 = self.tail.wrapping_add(1);
            Submitter {
                tail: self.tail.wrapping_add(3),
                written: Ghost(
                    self.written@.push((spec_slot(self.tail, self.queue.mask), spec_padding())).push(
                        (spec_slot(t1, self.queue.mask), item.raw@),
                    ),
                ),
                ..*self
            }
        } else {
            Submitter {
                tail: self.tail.wrapping_add(2),
                written: Ghost(self.written@.push((spec_slot(self.tail, self.queue.mask), item.raw@))),
                ..*self
            }
        }
    }

    fn push(&mut self, item: Sqe128) -> (r: Result<(), Sqe128>) {
        if self.size() as u64 + 2 > self.queue.size as u64 {
            return Err(item);
        }
        if self.tail.wrapping_add(1) & self.queue.mask == 0 {
            if self.size() as u64 + 3 > self.queue.size as u64 {
                return Err(item);
            }
            let pad = padding();
            self.push_slot(&pad.raw);
            // the padding filled the last slot: the entry starts at slot 0
            assert(self.tail & self.queue.mask == 0);
        }
        let slot = self.queue.get_sqe(self.tail);
        proof {
            if slot == self.queue.mask {
                lemma_wrap_to_zero(self.tail, self.queue.size, self.queue.mask);
                assert(self.tail & self.queue.mask == 0);
                assert(false);
            }
        }
        assert(slot as int * 8 + 16 <= self.queue.sqes@.len()) by (nonlinear_arith)
            requires
                slot < self.queue.mask,
                self.queue.mask == self.queue.size - 1,
                self.queue.sqes@.len() == self.queue.size * 8,
        ;
        self.queue.write_words(slot as usize * 8, &item.raw);
        self.tail = self.tail.wrapping_add(2);
        self.written = Ghost(self.written@.push((slot, item.raw@)));
        Ok(())
    }
}

} // verus!
