//! The completion queue: a typed view of the shared CQ ring, the collector
//! that reads completions in order and releases their slots, and the flush
//! decision of a submission-polling ring.
use std::marker::PhantomData;
use std::sync::atomic::{AtomicU32, AtomicU64, Ordering};
use vstd::prelude::*;
use crate::cqe::{self, Cqe, CqeMix, spec_cqe_flags};
use crate::flags::{
    CQE_F_32, ENTER_GETEVENTS, ENTER_SQ_WAKEUP, MAX_CQ_ENTRIES, SQ_CQ_OVERFLOW, SQ_NEED_WAKEUP, contains,
    has_flag,
};
use crate::mode::{Mode, Sqpoll};
use crate::ring::{lemma_slot_bound, ring_shape, spec_slot};

verus! {

/// ## Completion Queue
#[derive(Debug)]
pub struct CompletionQueue<'fd, M, C> {
    pub cqes: &'fd [AtomicU64],
    pub k_head: &'fd AtomicU32,
    pub k_tail: &'fd AtomicU32,
    pub mask: u32,
    pub size: u32,
    pub k_flags: &'fd AtomicU32,
    pub k_overflow: &'fd AtomicU32,
    /// The flags word of the SQ ring, which carries the wake-up and
    /// overflow bits.
    pub k_sq_flags: &'fd AtomicU32,
    pub marker: PhantomData<(M, C)>,
}

impl<'fd, M: Mode, C: Cqe> CompletionQueue<'fd, M, C> {
    /// The ring has a power-of-two size within the kernel's limit, and the
    /// CQE array holds one slot per entry.
    pub open spec fn wf(&self) -> bool {
        &&& ring_shape(self.size, self.mask)
        &&& self.size <= MAX_CQ_ENTRIES
        &&& self.cqes@.len() == self.size * cqe::spec_slot_words(C::ty())
    }

    /// A view of the shared CQ ring whose words are given; `None` unless
    /// its size and mask describe a ring the CQE array can hold.
    pub fn new(
        cqes: &'fd [AtomicU64],
        k_head: &'fd AtomicU32,
        k_tail: &'fd AtomicU32,
        k_flags: &'fd AtomicU32,
        k_overflow: &'fd AtomicU32,
        k_sq_flags: &'fd AtomicU32,
        mask: u32,
        size: u32,
    ) -> (r: Option<Self>)
        ensures
            r is Some <==> (ring_shape(size, mask) && size <= MAX_CQ_ENTRIES && cqes@.len() == size
                * cqe::spec_slot_words(C::ty())),
            r matches Some(q) ==> q.wf() && q.cqes == cqes && q.k_head == k_head && q.k_tail
                == k_tail && q.k_flags == k_flags && q.k_overflow == k_overflow && q.k_sq_flags
                == k_sq_flags && q.mask == mask && q.size == size,
    {
        let words = C::kind().slot_words();
        if !crate::ring::check_shape(size, mask) || size > MAX_CQ_ENTRIES {
            return None;
        }
        if cqes.len() != size as usize * words {
            return None;
        }
        Some(
            CompletionQueue {
                cqes,
                k_head,
                k_tail,
                mask,
                size,
                k_flags,
                k_overflow,
                k_sq_flags,
                marker: PhantomData,
            },
        )
    }

    /// The kernel's flags word of the CQ ring.
    pub fn flags(&self, order: Ordering) -> u32
        requires
            !(order is Release),
            !(order is AcqRel),
    {
        self.k_flags.load(order)
    }

    /// The flags word of the SQ ring.
    pub fn sq_flags(&self, order: Ordering) -> u32
        requires
            !(order is Release),
            !(order is AcqRel),
    {
        self.k_sq_flags.load(order)
    }

    /// Completions the kernel could not post.
    pub fn overflow(&self) -> u32 {
        self.k_overflow.load(Ordering::Acquire)
    }

    /// The slot that the counter value `idx` addresses.
    pub fn get_cqe(&self, idx: u32) -> (r: u32)
        ensures
            r == spec_slot(idx, self.mask),
            r <= self.mask,
    {
        proof {
            lemma_slot_bound(idx, self.mask);
        }
        idx & self.mask
    }

    /// The published head; only this process writes it.
    pub fn head(&self) -> u32 {
        self.k_head.load(Ordering::Relaxed)
    }

    /// The kernel's tail: completions before it are fully written.
    pub fn tail(&self) -> u32 {
        self.k_tail.load(Ordering::Acquire)
    }

    /// Release the slots before `head` to the kernel.
    pub fn set_head(&self, head: u32) {
        self.k_head.store(head, Ordering::Release);
    }

    /// A collector that reads from the published head to the kernel's tail.
    pub fn collector<'c>(&'c mut self) -> (r: Collector<'c, 'fd, M, C>)
        requires
            old(self).wf(),
        ensures
            *r.queue == *old(self),
            *final(self) == *old(self),
            r.published@ is None,
    {
        let head = self.head();
        let tail = self.tail();
        Collector { head, tail, queue: self, published: Ghost(None) }
    }

    /// The four words from the start of the entry at counter value `idx`:
    /// those of its slot, then those of the slot after it.
    fn read_words(&self, idx: u32) -> (r: [u64; 4])
        requires
            self.wf(),
    {
        let slot = self.get_cqe(idx);
        if C::kind().slot_words() == 4 {
            assert(slot as int * 4 + 4 <= self.cqes@.len()) by (nonlinear_arith)
                requires
                    slot <= self.mask,
                    self.mask == self.size - 1,
                    self.cqes@.len() == self.size * 4,
            ;
            let b = slot as usize * 4;
            [
                self.cqes[b].load(Ordering::Relaxed),
                self.cqes[b + 1].load(Ordering::Relaxed),
                self.cqes[b + 2].load(Ordering::Relaxed),
                self.cqes[b + 3].load(Ordering::Relaxed),
            ]
        } else {
            let next = self.get_cqe(idx.wrapping_add(1));
            assert(slot as int * 2 + 2 <= self.cqes@.len() && next as int * 2 + 2
                <= self.cqes@.len()) by (nonlinear_arith)
                requires
                    slot <= self.mask,
                    next <= self.mask,
                    self.mask == self.size - 1,
                    self.cqes@.len() == self.size * 2,
            ;
            let b = slot as usize * 2;
            let n = next as usize * 2;
            [
                self.cqes[b].load(Ordering::Relaxed),
                self.cqes[b + 1].load(Ordering::Relaxed),
                self.cqes[n].load(Ordering::Relaxed),
                self.cqes[n + 1].load(Ordering::Relaxed),
            ]
        }
    }
}

/// ## Collector
///
/// Holds the authoritative head and a snapshot of the kernel's tail; the
/// head reaches the kernel when the collector is updated. A scope that
/// owns a collector publishes its head on exit.
pub struct Collector<'c, 'fd, M: Mode, C: Cqe> {
    pub head: u32,
    pub tail: u32,
    pub queue: &'c CompletionQueue<'fd, M, C>,
    /// The last head this collector published.
    pub published: Ghost<Option<u32>>,
}

impl<'c, 'fd, M: Mode, C: Cqe> Collector<'c, 'fd, M, C> {
    /// Completions posted and not yet read.
    pub open spec fn spec_size(&self) -> u32 {
        self.tail.wrapping_sub(self.head)
    }

    pub fn size(&self) -> (r: u32)
        ensures
            r == self.spec_size(),
    {
        self.tail.wrapping_sub(self.head)
    }

    pub fn is_full(&self) -> (r: bool)
        ensures
            r == (self.spec_size() == self.queue.size),
    {
        self.size() == self.queue.size
    }

    /// Completions left to read, as a count.
    pub fn len(&self) -> (r: usize)
        ensures
            r == self.spec_size(),
    {
        self.size() as usize
    }

    /// Release the slots read so far to the kernel.
    pub fn update_head(&mut self)
        ensures
            *final(self) == (Collector { published: Ghost(Some(old(self).head)), ..*old(self) }),
    {
        self.queue.set_head(self.head);
        self.published = Ghost(Some(self.head));
    }

    /// Take a new snapshot of the kernel's tail.
    pub fn update_tail(&mut self)
        ensures
            final(self).head == old(self).head,
            final(self).queue == old(self).queue,
            final(self).published == old(self).published,
    {
        self.tail = self.queue.tail();
    }

    /// Release the slots read so far, then take a new tail snapshot.
    pub fn update(&mut self)
        ensures
            final(self).head == old(self).head,
            final(self).queue == old(self).queue,
            final(self).published == Some(old(self).head),
    {
        self.update_head();
        self.update_tail();
    }

    /// The next completion, in the order the kernel posted them; `None`
    /// once the head reaches the tail snapshot. The head moves past the
    /// slots the completion takes.
    pub fn next(&mut self) -> (r: Option<C>)
        requires
            old(self).queue.wf(),
        ensures
            r is None <==> old(self).head == old(self).tail,
            r is None ==> *final(self) == *old(self),
            r is Some ==> exists|w: Seq<u64>|
                w.len() == 4 && r == Some(C::spec_from_words(w)) && final(self).head == old(
                    self,
                ).head.wrapping_add(C::spec_slots(w) as u32),
            final(self).tail == old(self).tail,
            final(self).queue == old(self).queue,
            final(self).published == old(self).published,
    {
        if self.head == self.tail {
            return None;
        }
        let words = self.queue.read_words(self.head);
        let (cqe, n) = C::from_words(words);
        self.head = self.head.wrapping_add(n);
        assert(words@.len() == 4);
        Some(cqe)
    }
}

impl<'c, 'fd, M: Mode> Collector<'c, 'fd, M, CqeMix> {
    /// The next completion of a mixed ring with its extension words, which
    /// a 32-byte completion carries in the slot after its own.
    pub fn next_ext(&mut self) -> (r: Option<(CqeMix, Option<[u64; 2]>)>)
        requires
            old(self).queue.wf(),
        ensures
            r is None <==> old(self).head == old(self).tail,
            r is None ==> *final(self) == *old(self),
            r matches Some((c, ext)) ==> {
                &&& ext is Some <==> has_flag(spec_cqe_flags(c.raw@[1]), CQE_F_32)
                &&& final(self).head == old(self).head.wrapping_add(
                    if ext is Some {
                        2u32
                    } else {
                        1u32
                    },
                )
            },
            final(self).tail == old(self).tail,
            final(self).queue == old(self).queue,
            final(self).published == old(self).published,
    {
        if self.head == self.tail {
            return None;
        }
        let w = self.queue.read_words(self.head);
        let c = CqeMix { raw: [w[0], w[1]] };
        if c.is_cqe32() {
            self.head = self.head.wrapping_add(2);
            Some((c, Some([w[2], w[3]])))
        } else {
            self.head = self.head.wrapping_add(1);
            Some((c, None))
        }
    }
}

/// Enter flags a flush of a submission-polling ring needs, given the SQ
/// flags word and the completions to wait for: `None` when no enter call
/// is needed.
pub open spec fn spec_flush_flags(sq_flags: u32, min_complete: u32) -> Option<u32> {
    let wakeup = has_flag(sq_flags, SQ_NEED_WAKEUP);
    let getevents = min_complete > 0 || has_flag(sq_flags, SQ_CQ_OVERFLOW);
    if !wakeup && !getevents {
        None
    } else {
        Some(
            (if wakeup {
                ENTER_SQ_WAKEUP
            } else {
                0
            }) | (if getevents {
                ENTER_GETEVENTS
            } else {
                0
            }),
        )
    }
}

/// The flush decision: wake a sleeping poller; ask for completions when
/// some are awaited or the kernel holds overflowed ones; else nothing.
pub fn flush_flags(sq_flags: u32, min_complete: u32) -> (r: Option<u32>)
    ensures
        r == spec_flush_flags(sq_flags, min_complete),
{
    let wakeup = contains(sq_flags, SQ_NEED_WAKEUP);
    let getevents = min_complete > 0 || contains(sq_flags, SQ_CQ_OVERFLOW);
    let mut flags: u32 = 0;
    if wakeup {
        flags = flags | ENTER_SQ_WAKEUP;
    } else if !getevents {
        return None;
    }
    if getevents {
        flags = flags | ENTER_GETEVENTS;
    }
    assert(flags == (if wakeup {
        ENTER_SQ_WAKEUP
    } else {
        0
    }) | (if getevents {
        ENTER_GETEVENTS
    } else {
        0
    })) by (bit_vector)
        requires
            flags == (if wakeup {
                0u32 | 2u32
            } else {
                0u32
            }) | (if getevents {
                1u32
            } else {
                0u32
            }) || (wakeup && !getevents && flags == 0u32 | 2u32) || (!wakeup && getevents && flags
                == 0u32 | 1u32),
    ;
    Some(flags)
}

/// With the poller awake, no overflow and no completion awaited, a flush
/// makes no enter call (and returns zero).
pub proof fn lemma_idle_flush_skips_enter(sq_flags: u32, min_complete: u32)
    requires
        !has_flag(sq_flags, SQ_NEED_WAKEUP),
        !has_flag(sq_flags, SQ_CQ_OVERFLOW),
        min_complete == 0,
    ensures
        spec_flush_flags(sq_flags, min_complete) is None,
{
}

impl<'c, 'fd, C: Cqe> Collector<'c, 'fd, Sqpoll, C> {
    /// Decide the enter call of a flush. The SQ flags word is read after a
    /// full fence, which pairs with the kernel's store of the wake-up bit.
    /// `None`: no enter call, the flush returns zero; `Some(f)`: enter with
    /// nothing to submit, waiting for `min_complete`, with flags `f`.
    pub fn flush(&mut self, min_complete: u32) -> (r: Option<u32>)
        ensures
            exists|f: u32| r == spec_flush_flags(f, min_complete),
            *final(self) == *old(self),
    {
        std::sync::atomic::fence(Ordering::SeqCst);
        let f = self.queue.sq_flags(Ordering::Relaxed);
        flush_flags(f, min_complete)
    }
}

} // verus!
