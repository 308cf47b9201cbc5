use std::sync::atomic::{AtomicU32, Ordering};

use uringio::arena::{check_page_size, mmap_layout, next_power_of_two, page_align, page_size, HugeLayout, SqesMap};
use uringio::args::{check_setup_features, UringArgs, DEFAULT_SQ_POLL_IDLE};
use uringio::cqe::{Cqe16, Cqe32, CqeMix};
use uringio::enter::{IoUringRsrcUpdate, RegisterRingFd, UringEnter};
use uringio::error::Error;
use uringio::flags::{
    ENTER_GETEVENTS, ENTER_NO_IOWAIT, ENTER_REGISTERED_RING, FEAT_NODROP, FEAT_NO_IOWAIT,
    FEAT_REG_REG_RING, FEAT_SINGLE_MMAP, SETUP_CLAMP, SETUP_COOP_TASKRUN, SETUP_CQE_MIXED,
    SETUP_CQSIZE, SETUP_DEFER_TASKRUN, SETUP_HYBRID_IOPOLL, SETUP_IOPOLL, SETUP_NO_MMAP,
    SETUP_NO_SQARRAY, SETUP_SINGLE_ISSUER, SETUP_SQE128, SETUP_SQE_MIXED, SETUP_SQPOLL,
    SETUP_SUBMIT_ALL, SETUP_TASKRUN_FLAG, SETUP_CQE32,
};
use uringio::index::SubmissionIndex;
use uringio::mode::{Iopoll, Sqpoll};
use uringio::params::IoUringParams;
use uringio::sqe::{Sqe128, Sqe64, SqeMix};

#[test]
fn test_page_size() {
    assert!(page_size().unwrap().is_power_of_two());
}

#[test]
fn page_size_is_checked() {
    assert_eq!(check_page_size(4096), Ok(4096));
    assert_eq!(check_page_size(2097152), Ok(2097152));
    assert_eq!(check_page_size(0), Err(Error::BadPageSize));
    assert_eq!(check_page_size(3000), Err(Error::BadPageSize));
    assert_eq!(check_page_size(4194304), Err(Error::BadPageSize));
    assert!(page_size().unwrap() <= 2097152);
}

#[test]
fn sqpoll_preset_flags() {
    let args = Sqpoll::new::<Sqe64, Cqe16>(8);
    assert_eq!(args.params.sq_entries, 8);
    assert_eq!(args.params.sq_thread_idle, DEFAULT_SQ_POLL_IDLE);
    assert_eq!(
        args.params.flags,
        SETUP_SQPOLL | SETUP_CLAMP | SETUP_SUBMIT_ALL | SETUP_SINGLE_ISSUER | SETUP_NO_SQARRAY
    );
}

#[test]
fn iopoll_preset_flags() {
    let args = Iopoll::new::<Sqe128, Cqe32>(16);
    assert_eq!(
        args.params.flags,
        SETUP_SQE128
            | SETUP_CQE32
            | SETUP_IOPOLL
            | SETUP_CLAMP
            | SETUP_SUBMIT_ALL
            | SETUP_COOP_TASKRUN
            | SETUP_TASKRUN_FLAG
            | SETUP_SINGLE_ISSUER
            | SETUP_DEFER_TASKRUN
            | SETUP_NO_SQARRAY
            | SETUP_HYBRID_IOPOLL
    );
}

#[test]
fn builder_sets_fields_and_flags() {
    let args = UringArgs::<Sqpoll, SqeMix, CqeMix>::new(4).cqsize(64).sqpoll_cpu(3).attach_wq(9).sqsize(32);
    assert_eq!(args.params.sq_entries, 32);
    assert_eq!(args.params.cq_entries, 64);
    assert_eq!(args.params.sq_thread_cpu, 3);
    assert_eq!(args.params.wq_fd, 9);
    assert_eq!(args.params.flags & SETUP_SQE_MIXED, SETUP_SQE_MIXED);
    assert_eq!(args.params.flags & SETUP_CQE_MIXED, SETUP_CQE_MIXED);
    assert_eq!(args.params.flags & SETUP_CQSIZE, SETUP_CQSIZE);
}

#[test]
fn region_sizes() {
    let mut args = UringArgs::<Sqpoll, Sqe128, Cqe32>::new(8);
    args.params.cq_entries = 16;
    args.params.sq_off.array = 320;
    args.params.cq_off.cqes = 64;
    assert_eq!(args.sqes_mem(), 8 * 128);
    assert_eq!(args.cqes_mem(), 16 * 32);
    assert_eq!(args.sq_indices_mem(), 32);
    assert_eq!(args.sq_mem(), 352);
    assert_eq!(args.cq_mem(), 64 + 512);
    assert_eq!(args.ring_mem(), 64 + 512 + 32);
    let args = args.no_sqarray();
    assert_eq!(args.sq_indices_mem(), 0);
}

#[test]
fn file_backed_layout() {
    let mut args = UringArgs::<Sqpoll, Sqe64, Cqe16>::new(8);
    args.params.cq_entries = 16;
    args.params.sq_off.array = 320;
    args.params.cq_off.cqes = 64;
    args.params.features = FEAT_SINGLE_MMAP;
    let l = mmap_layout(&args);
    assert_eq!(l.sqes_size, 512);
    assert_eq!(l.sq_size, 352);
    assert_eq!(l.cq_size, None);
    args.params.features = 0;
    let l = mmap_layout(&args);
    assert_eq!(l.sq_size, 352);
    assert_eq!(l.cq_size, Some(320));
    args.params.cq_entries = 64;
    args.params.features = FEAT_SINGLE_MMAP;
    assert_eq!(mmap_layout(&args).sq_size, 64 + 64 * 16);
}

#[test]
fn anonymous_layout_shares_a_huge_page() {
    let mut args = UringArgs::<Sqpoll, Sqe64, Cqe16>::new(100).clamp().no_mmap();
    let l = args.huge_layout(4096).unwrap();
    assert_eq!(args.params.sq_entries, 128);
    assert_eq!(args.params.cq_entries, 256);
    assert_eq!(args.params.flags & SETUP_CQSIZE, SETUP_CQSIZE);
    assert_eq!(
        l,
        HugeLayout { ring_size: 8192, sqes_size: 8192, ring_map_len: 2097152, ring_huge: true, sqes_map: None }
    );
    assert_eq!(l.sqes_addr(0x10000, 0), Some(0x10000 + 8192));
}

#[test]
fn anonymous_layout_small_rings_map_twice() {
    let mut args = UringArgs::<Sqpoll, Sqe64, Cqe16>::new(8).clamp().no_sqarray().no_mmap();
    let l = args.huge_layout(4096).unwrap();
    assert_eq!(args.params.cq_entries, 16);
    assert_eq!(l.ring_size, 4096);
    assert_eq!(l.ring_map_len, 4096);
    assert!(!l.ring_huge);
    assert_eq!(l.sqes_map, Some(SqesMap { len: 4096, huge: false }));
    assert_eq!(l.sqes_addr(0x10000, 0x20000), Some(0x20000));
    args.set_user_addrs(0x10000, 0x20000);
    assert_eq!(args.params.cq_off.user_addr, 0x10000);
    assert_eq!(args.params.sq_off.user_addr, 0x20000);
}

#[test]
fn anonymous_layout_clamps_asked_cq_size() {
    let mut args = UringArgs::<Sqpoll, Sqe64, Cqe16>::new(40000).clamp().cqsize(100000).no_mmap();
    let r = args.huge_layout(4096);
    assert_eq!(args.params.sq_entries, 32768);
    assert_eq!(args.params.cq_entries, 65536);
    // rings: 64 + 65536 * 16 + 32768 * 4 bytes; SQEs: exactly one huge page
    let sqes = SqesMap { len: 2097152, huge: true };
    assert_eq!(
        r,
        Ok(HugeLayout {
            ring_size: 1183744,
            sqes_size: 2097152,
            ring_map_len: 2097152,
            ring_huge: true,
            sqes_map: Some(sqes),
        })
    );
}

#[test]
fn anonymous_layout_too_large() {
    let mut args = UringArgs::<Sqpoll, Sqe128, Cqe16>::new(32768).clamp().no_sqarray().cqsize(1).no_mmap();
    assert_eq!(args.huge_layout(4096), Err(Error::ExceedsHugePage));
}

#[test]
fn rounding_helpers() {
    assert_eq!(page_align(0, 4096), 0);
    assert_eq!(page_align(1, 4096), 4096);
    assert_eq!(page_align(4096, 4096), 4096);
    assert_eq!(page_align(4097, 4096), 8192);
    assert_eq!(next_power_of_two(1), 1);
    assert_eq!(next_power_of_two(5), 8);
    assert_eq!(next_power_of_two(8), 8);
    assert_eq!(next_power_of_two(32769), 65536);
}

#[test]
fn setup_fails_without_nodrop() {
    assert_eq!(check_setup_features(FEAT_SINGLE_MMAP), Err(Error::FeatureNotSupported(FEAT_NODROP)));
    assert_eq!(check_setup_features(FEAT_NODROP), Err(Error::FeatureNotSupported(FEAT_SINGLE_MMAP)));
    assert_eq!(check_setup_features(FEAT_NODROP | FEAT_SINGLE_MMAP), Ok(()));
    let mut args = Sqpoll::new::<Sqe64, Cqe16>(8);
    let mut reported = IoUringParams::zeroed();
    reported.features = FEAT_SINGLE_MMAP;
    assert_eq!(args.setup(reported, true), Err(Error::FeatureNotSupported(FEAT_NODROP)));
    assert_eq!(args.params, reported);
    assert_eq!(args.setup(reported, false), Ok(()));
}

#[test]
fn register_twice_is_refused() {
    let mut params = IoUringParams::zeroed();
    params.features = FEAT_REG_REG_RING;
    let mut e = UringEnter::<Iopoll>::new(7, &params, true);
    assert_eq!(e.enter_flags(0), ENTER_GETEVENTS);
    assert!(!e.is_ring_registered());
    assert_eq!(e.unregister_ring_fd(), None);
    let req = e.register_ring_fd().unwrap();
    assert_eq!(req, IoUringRsrcUpdate { offset: u32::MAX, resv: 0, data: 7 });
    assert_eq!(e.ring_fd_registered(0, 3), Err(Error::RegisterRingFdFailed));
    assert!(!e.is_ring_registered());
    assert_eq!(e.ring_fd_registered(1, 3), Ok(()));
    assert!(e.is_ring_registered());
    assert_eq!(e.enter_fd, 3);
    assert_eq!(e.enter_flags(0), ENTER_GETEVENTS | ENTER_REGISTERED_RING);
    assert_eq!(e.register_ring_fd(), Err(Error::RingFdRegistered));
    assert_eq!(e.unregister_ring_fd(), Some(IoUringRsrcUpdate::unregister(3)));
}

#[test]
fn register_needs_the_feature_when_checked() {
    let params = IoUringParams::zeroed();
    let e = UringEnter::<Sqpoll>::new(7, &params, true);
    assert_eq!(e.register_ring_fd(), Err(Error::FeatureNotSupported(FEAT_REG_REG_RING)));
    let e = UringEnter::<Sqpoll>::new(7, &params, false);
    assert_eq!(e.enter_flags(0), 0);
    assert!(e.register_ring_fd().is_ok());
}

#[test]
fn iowait_flag_follows_the_feature() {
    let mut params = IoUringParams::zeroed();
    let mut e = UringEnter::<Sqpoll>::new(7, &params, true);
    e.set_iowait(true);
    assert_eq!(e.enter_flags(0), 0);
    params.features = FEAT_NO_IOWAIT;
    let mut e = UringEnter::<Sqpoll>::new(7, &params, true);
    e.set_iowait(true);
    assert_eq!(e.enter_flags(0), ENTER_NO_IOWAIT);
    e.set_iowait(false);
    assert_eq!(e.enter_flags(0), 0);
    assert_eq!(e.features(), FEAT_NO_IOWAIT);
}

#[test]
fn index_array_is_the_identity() {
    let idx: Vec<AtomicU32> = (0..8).map(|_| AtomicU32::new(99)).collect();
    let params = IoUringParams::zeroed();
    SubmissionIndex::setup(&idx, &params);
    let got: Vec<u32> = idx.iter().map(|w| w.load(Ordering::Relaxed)).collect();
    assert_eq!(got, (0..8).collect::<Vec<u32>>());
    assert!(SubmissionIndex::new(&idx, &params).is_ok());
    let mut params = params;
    params.flags = SETUP_NO_SQARRAY;
    assert_eq!(SubmissionIndex::new(&idx, &params).unwrap_err(), Error::NoSqArray);
    let untouched: Vec<AtomicU32> = (0..2).map(|_| AtomicU32::new(5)).collect();
    SubmissionIndex::setup(&untouched, &params);
    assert_eq!(untouched[1].load(Ordering::Relaxed), 5);
    assert_eq!(SETUP_NO_MMAP, 16384);
}
