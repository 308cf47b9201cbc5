use std::sync::atomic::{AtomicU32, AtomicU64, Ordering};

use uringio::completion::{flush_flags, CompletionQueue};
use uringio::cqe::{Cqe16, CqeMix};
use uringio::flags::{
    CQE_F_32, ENTER_GETEVENTS, ENTER_SQ_WAKEUP, SQE_CQE_SKIP_SUCCESS, SQ_CQ_OVERFLOW, SQ_NEED_WAKEUP,
};
use uringio::mode::{Iopoll, Sqpoll};
use uringio::op::{Nop, Nop128, Op};
use uringio::sqe::{Sqe128, Sqe64, SqeMix};
use uringio::submission::{Submit, SubmissionQueue};

struct Shared {
    head: AtomicU32,
    tail: AtomicU32,
    flags: AtomicU32,
    extra: AtomicU32,
}

fn shared() -> Shared {
    Shared {
        head: AtomicU32::new(0),
        tail: AtomicU32::new(0),
        flags: AtomicU32::new(0),
        extra: AtomicU32::new(0),
    }
}

fn words(n: usize) -> Vec<AtomicU64> {
    (0..n).map(|_| AtomicU64::new(0)).collect()
}

fn nop(user_data: u64) -> Sqe64 {
    Nop::new().set_user_data(user_data).into_sqe()
}

fn slot(sqes: &[AtomicU64], i: usize) -> Vec<u64> {
    sqes[i * 8..i * 8 + 8].iter().map(|w| w.load(Ordering::Relaxed)).collect()
}

#[test]
fn queue_rejects_a_bad_shape() {
    let sh = shared();
    let sqes = words(8 * 3);
    let q = SubmissionQueue::<Sqpoll, Sqe64>::new(&sqes, &sh.head, &sh.tail, &sh.flags, &sh.extra, 2, 3);
    assert!(q.is_none());
    let sqes = words(8 * 4);
    let q = SubmissionQueue::<Sqpoll, Sqe64>::new(&sqes, &sh.head, &sh.tail, &sh.flags, &sh.extra, 2, 4);
    assert!(q.is_none());
    let q = SubmissionQueue::<Sqpoll, Sqe64>::new(&sqes, &sh.head, &sh.tail, &sh.flags, &sh.extra, 3, 4);
    assert!(q.is_some());
    let q = SubmissionQueue::<Sqpoll, Sqe128>::new(&sqes, &sh.head, &sh.tail, &sh.flags, &sh.extra, 3, 4);
    assert!(q.is_none());
}

#[test]
fn full_queue_hands_the_entry_back() {
    let sh = shared();
    let sqes = words(8 * 4);
    let mut q =
        SubmissionQueue::<Sqpoll, Sqe64>::new(&sqes, &sh.head, &sh.tail, &sh.flags, &sh.extra, 3, 4).unwrap();
    let mut s = q.submitter();
    for i in 0..4 {
        assert!(s.push(nop(i)).is_ok());
    }
    assert!(s.is_full());
    let back = s.push(nop(0x99)).unwrap_err();
    assert_eq!(back.raw, nop(0x99).raw);
    assert_eq!(s.tail, 4);
    s.submit();
    assert_eq!(sh.tail.load(Ordering::Relaxed), 4);
    // the kernel consumes one entry
    sh.head.store(1, Ordering::Release);
    s.update_head();
    assert!(s.push(nop(5)).is_ok());
    assert_eq!(s.tail, 5);
    assert_eq!(slot(&sqes, 0)[4], 5);
}

#[test]
fn pushes_wrap_around_the_ring() {
    let sh = shared();
    sh.head.store(3, Ordering::Relaxed);
    sh.tail.store(3, Ordering::Relaxed);
    let sqes = words(8 * 4);
    let mut q =
        SubmissionQueue::<Iopoll, Sqe64>::new(&sqes, &sh.head, &sh.tail, &sh.flags, &sh.extra, 3, 4).unwrap();
    let mut s = q.submitter();
    assert!(s.push(nop(0xa)).is_ok());
    assert!(s.push(nop(0xb)).is_ok());
    assert_eq!(slot(&sqes, 3)[4], 0xa);
    assert_eq!(slot(&sqes, 0)[4], 0xb);
    assert_eq!(s.submit(), 2);
    assert_eq!(sh.tail.load(Ordering::Relaxed), 5);
}

#[test]
fn tail_published_after_pushes() {
    let sh = shared();
    sh.head.store(u32::MAX - 1, Ordering::Relaxed);
    sh.tail.store(u32::MAX - 1, Ordering::Relaxed);
    let sqes = words(8 * 8);
    let mut q =
        SubmissionQueue::<Sqpoll, Sqe64>::new(&sqes, &sh.head, &sh.tail, &sh.flags, &sh.extra, 7, 8).unwrap();
    let mut s = q.submitter();
    for i in 0..3 {
        assert!(s.push(nop(i)).is_ok());
    }
    s.update_tail();
    assert_eq!(sh.tail.load(Ordering::Relaxed), (u32::MAX - 1).wrapping_add(3));
    assert_eq!(s.size(), 3);
}

#[test]
fn mixed_ring_pads_before_the_wrap() {
    let sh = shared();
    let sqes = words(8 * 8);
    let mut q =
        SubmissionQueue::<Sqpoll, SqeMix>::new(&sqes, &sh.head, &sh.tail, &sh.flags, &sh.extra, 7, 8).unwrap();
    let mut s = q.submitter();
    for i in 0..7 {
        assert!(Submit::<Sqe64>::push(&mut s, nop(i)).is_ok());
    }
    assert_eq!(s.tail, 7);
    // no room for three slots until the kernel consumes
    let big = Sqe128::new(Nop128::new().set_user_data(0x128).into_sqe().raw);
    let back = Submit::<Sqe128>::push(&mut s, big).unwrap_err();
    assert_eq!(back.raw, big.raw);
    assert_eq!(s.tail, 7);
    sh.head.store(7, Ordering::Release);
    s.update_head();
    assert!(Submit::<Sqe128>::push(&mut s, big).is_ok());
    assert_eq!(s.tail, 10);
    assert_eq!(s.tail & 7, 2);
    let pad = slot(&sqes, 7);
    assert_eq!((pad[0] >> 8) as u8 & SQE_CQE_SKIP_SUCCESS, SQE_CQE_SKIP_SUCCESS);
    assert_eq!(slot(&sqes, 0)[4], 0x128);
    s.submit();
    assert_eq!(sh.tail.load(Ordering::Relaxed), 10);
}

#[test]
fn mixed_ring_without_wrap_takes_two_slots() {
    let sh = shared();
    let sqes = words(8 * 8);
    let mut q =
        SubmissionQueue::<Sqpoll, SqeMix>::new(&sqes, &sh.head, &sh.tail, &sh.flags, &sh.extra, 7, 8).unwrap();
    let mut s = q.submitter();
    let big = Sqe128::new(Nop128::new().set_user_data(3).into_sqe().raw);
    assert!(Submit::<Sqe128>::push(&mut s, big).is_ok());
    assert_eq!(s.tail, 2);
    assert_eq!(slot(&sqes, 0)[4], 3);
}

fn cqe_words(user_data: u64, res: i32, flags: u32) -> [u64; 2] {
    [user_data, (flags as u64) << 32 | res as u32 as u64]
}

#[test]
fn collector_reads_in_order_and_releases() {
    let sh = shared();
    let sq_flags = AtomicU32::new(0);
    let cqes = words(2 * 4);
    for (i, w) in [cqe_words(1, 0, 0), cqe_words(2, -11, 0), cqe_words(3, 42, 0)].iter().enumerate() {
        cqes[2 * i].store(w[0], Ordering::Relaxed);
        cqes[2 * i + 1].store(w[1], Ordering::Relaxed);
    }
    sh.tail.store(3, Ordering::Release);
    let mut q = CompletionQueue::<Sqpoll, Cqe16>::new(
        &cqes, &sh.head, &sh.tail, &sh.flags, &sh.extra, &sq_flags, 3, 4,
    )
    .unwrap();
    let mut c = q.collector();
    assert_eq!(c.len(), 3);
    let got: Vec<(u64, i32)> =
        std::iter::from_fn(|| c.next()).map(|e| (e.user_data(), e.res())).collect();
    assert_eq!(got, vec![(1, 0), (2, -11), (3, 42)]);
    assert!(c.next().is_none());
    c.update_head();
    assert_eq!(sh.head.load(Ordering::Relaxed), 3);
}

#[test]
fn mixed_completions_skip_their_extension() {
    let sh = shared();
    let sq_flags = AtomicU32::new(0);
    let cqes = words(2 * 4);
    let w = cqe_words(9, 0, CQE_F_32);
    cqes[0].store(w[0], Ordering::Relaxed);
    cqes[1].store(w[1], Ordering::Relaxed);
    cqes[2].store(0xe1, Ordering::Relaxed);
    cqes[3].store(0xe2, Ordering::Relaxed);
    let w = cqe_words(10, 1, 0);
    cqes[4].store(w[0], Ordering::Relaxed);
    cqes[5].store(w[1], Ordering::Relaxed);
    sh.tail.store(3, Ordering::Release);
    let mut q = CompletionQueue::<Sqpoll, CqeMix>::new(
        &cqes, &sh.head, &sh.tail, &sh.flags, &sh.extra, &sq_flags, 3, 4,
    )
    .unwrap();
    let mut c = q.collector();
    let (first, ext) = c.next_ext().unwrap();
    assert_eq!(first.user_data(), 9);
    assert_eq!(ext, Some([0xe1, 0xe2]));
    assert_eq!(c.head, 2);
    let second = c.next().unwrap();
    assert_eq!(second.user_data(), 10);
    assert_eq!(c.head, 3);
    assert!(c.next().is_none());
}

#[test]
fn flush_decides_the_enter_call() {
    assert_eq!(flush_flags(0, 0), None);
    assert_eq!(flush_flags(SQ_NEED_WAKEUP, 0), Some(ENTER_SQ_WAKEUP));
    assert_eq!(flush_flags(0, 1), Some(ENTER_GETEVENTS));
    assert_eq!(flush_flags(SQ_CQ_OVERFLOW, 0), Some(ENTER_GETEVENTS));
    assert_eq!(flush_flags(SQ_NEED_WAKEUP, 1), Some(ENTER_SQ_WAKEUP | ENTER_GETEVENTS));
}

#[test]
fn idle_flush_makes_no_enter_call() {
    let sh = shared();
    let sq_flags = AtomicU32::new(0);
    let cqes = words(2 * 4);
    let mut q = CompletionQueue::<Sqpoll, Cqe16>::new(
        &cqes, &sh.head, &sh.tail, &sh.flags, &sh.extra, &sq_flags, 3, 4,
    )
    .unwrap();
    let mut c = q.collector();
    assert_eq!(c.flush(0), None);
    sq_flags.store(SQ_NEED_WAKEUP, Ordering::Relaxed);
    assert_eq!(c.flush(0), Some(ENTER_SQ_WAKEUP));
    sq_flags.store(0, Ordering::Relaxed);
    assert_eq!(c.flush(1), Some(ENTER_GETEVENTS));
}
