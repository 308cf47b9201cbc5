use std::mem::{align_of, size_of};

use uringio::cqe::{Cqe16, Cqe32, CqeMix};
use uringio::sqe::{Sqe128, Sqe64, SqeMix};

#[test]
fn test_cqe_size() {
    assert_eq!(Cqe16::SETUP_CQE_SIZE, 16);
    assert_eq!(Cqe32::SETUP_CQE_SIZE, 32);
    assert_eq!(CqeMix::SETUP_CQE_SIZE, 16);
}

#[test]
fn test_cqe_align() {
    assert_eq!(align_of::<Cqe16>(), 8);
    assert_eq!(align_of::<Cqe32>(), 8);
    assert_eq!(align_of::<CqeMix>(), 8);
}

#[test]
fn entry_test_entry_size() {
    assert_eq!(size_of::<Cqe16>(), 16);
    assert_eq!(size_of::<Cqe32>(), 32);
    assert_eq!(size_of::<CqeMix>(), 16);
    assert_eq!(size_of::<Sqe64>(), 64);
    assert_eq!(size_of::<Sqe128>(), 128);
    assert_eq!(size_of::<SqeMix>(), 64);
}

#[test]
fn test_cqe_mix_transmute() {
    assert_eq!(size_of::<Cqe16>(), size_of::<CqeMix>());
    assert_eq!(align_of::<Cqe16>(), align_of::<CqeMix>());
}

#[test]
fn test_sqe_size() {
    assert_eq!(Sqe64::SETUP_SQE_SIZE, 64);
    assert_eq!(Sqe128::SETUP_SQE_SIZE, 128);
    assert_eq!(SqeMix::SETUP_SQE_SIZE, 64);
}

#[test]
fn test_sqe_align() {
    assert_eq!(align_of::<Sqe64>(), 8);
    assert_eq!(align_of::<Sqe128>(), 8);
    assert_eq!(align_of::<SqeMix>(), 8);
}

#[test]
fn test_sqe_mix_transmute() {
    assert_eq!(size_of::<Sqe64>(), size_of::<SqeMix>());
    assert_eq!(align_of::<Sqe64>(), align_of::<SqeMix>());
}

#[test]
fn sqe128_new_zeroes_the_command_payload() {
    let s = Sqe128::new([1, 2, 3, 4, 5, 6, 7, 8]);
    assert_eq!(&s.raw[..8], &[1, 2, 3, 4, 5, 6, 7, 8]);
    assert_eq!(&s.raw[8..], &[0; 8]);
}

#[test]
fn sqe_mix_recognises_128_byte_opcodes() {
    assert!(SqeMix { raw: [63, 0, 0, 0, 0, 0, 0, 0] }.is_sqe128());
    assert!(SqeMix { raw: [64, 0, 0, 0, 0, 0, 0, 0] }.is_sqe128());
    assert!(!SqeMix { raw: [0, 0, 0, 0, 0, 0, 0, 0] }.is_sqe128());
    assert!(!SqeMix::from_sqe64(Sqe64::new([22, 0, 0, 0, 0, 0, 0, 0])).is_sqe128());
}

#[test]
fn cqe_fields_come_from_their_words() {
    // res -5 in the low half, flags 0x8002 in the high half
    let w1 = (0x8002u64 << 32) | (-5i32 as u32 as u64);
    let c = Cqe16 { raw: [0x42, w1] };
    assert_eq!(c.user_data(), 0x42);
    assert_eq!(c.res(), -5);
    assert_eq!(c.flags(), 0x8002);
    let m = CqeMix { raw: [0x42, w1] };
    assert!(m.is_cqe32());
    assert!(!CqeMix::from_cqe16(Cqe16 { raw: [1, 0] }).is_cqe32());
    let big = Cqe32 { raw: [7, 3], ext: [10, 11] };
    assert_eq!(big.ext_data(), &[10, 11]);
    assert_eq!(big.res(), 3);
}
