//! Ring memory layout. The file-backed arena maps the regions the kernel
//! allocated; the anonymous arena allocates them here, in huge pages when
//! a region exceeds one page, and tells the kernel where they are. This
//! module decides the sizes; the embedding program maps them.
use vstd::prelude::*;
use crate::args::{UringArgs, spec_cqes_mem, spec_sq_indices_mem, spec_sqes_mem};
use crate::cqe::Cqe;
use crate::error::Error;
use crate::flags::{
    FEAT_SINGLE_MMAP, HUGE_PAGE_SIZE, IO_RINGS_SIZE, MAX_CQ_ENTRIES, MAX_SQ_ENTRIES, SETUP_CLAMP,
    SETUP_CQSIZE, SETUP_NO_MMAP, contains, has_flag,
};
use crate::mode::Mode;
use crate::params::IoUringParams;
use crate::sqe::Sqe;

verus! {

/// Is `n` a power of two?
pub open spec fn is_pow2(n: u64) -> bool {
    n != 0 && n & (n - 1) as u64 == 0
}

pub fn check_pow2(n: u64) -> (r: bool)
    ensures
        r == is_pow2(n),
{
    n != 0 && n & (n - 1) == 0
}

/// The smallest power of two at least `x`.
pub fn next_power_of_two(x: u32) -> (r: u32)
    requires
        1 <= x <= 0x8000_0000,
    ensures
        is_pow2(r as u64),
        x <= r,
        r == 1 || r / 2 < x,
{
    let mut p: u32 = 1;
    assert(is_pow2(1u64)) by (bit_vector);
    while p < x
        invariant
            is_pow2(p as u64),
            1 <= x <= 0x8000_0000,
            p == 1 || p / 2 < x,
        decreases 0x1_0000_0000int - p,
    {
        let q = p as u64;
        assert(q <= 0x4000_0000u64) by (bit_vector)
            requires
                q != 0 && q & vstd::prelude::sub(q, 1u64) == 0,
                q < 0x8000_0000u64,
        ;
        let q2 = q * 2;
        assert(q2 != 0 && q2 & vstd::prelude::sub(q2, 1u64) == 0) by (bit_vector)
            requires
                q2 == vstd::prelude::mul(q, 2u64),
                q != 0 && q & vstd::prelude::sub(q, 1u64) == 0,
                q <= 0x4000_0000u64,
        ;
        p = p * 2;
    }
    p
}

/// `size` rounded up to a multiple of `page`.
pub open spec fn spec_page_align(size: u64, page: u64) -> int {
    (size + page - 1) / (page as int) * page
}

pub fn page_align(size: u64, page: u64) -> (r: u64)
    requires
        page > 0,
        size + page - 1 <= u64::MAX,
    ensures
        r == spec_page_align(size, page),
        size <= r < size + page,
{
    let n = size + (page - 1);
    let q = n / page;
    assert(q * page <= n && n < q * page + page) by (nonlinear_arith)
        requires
            q == n / page,
            page > 0,
    ;
    q * page
}

/// Relies on `rustix::param::page_size`: the size of a page on this system.
#[verifier::external_body]
fn system_page_size() -> (r: usize) {
    rustix::param::page_size()
}

/// Accept a page size that is a power of two no larger than a huge page.
pub fn check_page_size(p: u64) -> (r: Result<u64, Error>)
    ensures
        r == (if is_pow2(p) && p <= HUGE_PAGE_SIZE {
            Ok::<u64, Error>(p)
        } else {
            Err(Error::BadPageSize)
        }),
{
    if check_pow2(p) && p <= HUGE_PAGE_SIZE as u64 {
        Ok(p)
    } else {
        Err(Error::BadPageSize)
    }
}

/// The system page size, checked to be a power of two no larger than a
/// huge page.
pub fn page_size() -> (r: Result<u64, Error>)
    ensures
        r matches Ok(p) ==> is_pow2(p) && p <= HUGE_PAGE_SIZE,
        r matches Err(e) ==> e == Error::BadPageSize,
{
    check_page_size(system_page_size() as u64)
}

/// Mappings of a file-backed arena.
#[derive(Debug, Clone, Copy, PartialEq, Eq, Structural)]
pub struct MmapLayout {
    /// Bytes of the SQE array, mapped at its own offset.
    pub sqes_size: u64,
    /// Bytes of the SQ ring mapping (which also holds the CQ ring when
    /// the two share a mapping).
    pub sq_size: u64,
    /// Bytes of a separate CQ ring mapping, if the rings do not share one.
    pub cq_size: Option<u64>,
}

/// Sizes of the file-backed mappings of a ring with these parameters.
pub open spec fn spec_mmap_layout(p: IoUringParams, s: crate::sqe::Ty, c: crate::cqe::Ty) -> MmapLayout {
    let sq = p.sq_off.array + spec_sq_indices_mem(p);
    let cq = p.cq_off.cqes + spec_cqes_mem(p, c);
    if has_flag(p.features, FEAT_SINGLE_MMAP) {
        MmapLayout {
            sqes_size: spec_sqes_mem(p, s) as u64,
            sq_size: (if sq >= cq {
                sq
            } else {
                cq
            }) as u64,
            cq_size: None,
        }
    } else {
        MmapLayout { sqes_size: spec_sqes_mem(p, s) as u64, sq_size: sq as u64, cq_size: Some(cq as u64) }
    }
}

/// The mappings a file-backed arena makes: the SQE array, the SQ ring, and
/// the CQ ring unless the kernel reports that it shares the SQ mapping, in
/// which case that mapping covers the larger of the two rings.
pub fn mmap_layout<M: Mode, S: Sqe, C: Cqe>(args: &UringArgs<M, S, C>) -> (r: MmapLayout)
    ensures
        r == spec_mmap_layout(args.params, S::ty(), C::ty()),
{
    let sq = args.sq_mem();
    let cq = args.cq_mem();
    let sqes = args.sqes_mem();
    if contains(args.params.features, FEAT_SINGLE_MMAP) {
        MmapLayout {
            sqes_size: sqes,
            sq_size: if sq >= cq {
                sq
            } else {
                cq
            },
            cq_size: None,
        }
    } else {
        MmapLayout { sqes_size: sqes, sq_size: sq, cq_size: Some(cq) }
    }
}

/// Mappings of an anonymous arena.
#[derive(Debug, Clone, Copy, PartialEq, Eq, Structural)]
pub struct HugeLayout {
    /// Bytes of the ring region (both rings and the index array), page aligned.
    pub ring_size: u64,
    /// Bytes of the SQE region, page aligned.
    pub sqes_size: u64,
    /// Length of the ring mapping.
    pub ring_map_len: u64,
    /// Is the ring mapping backed by a huge page?
    pub ring_huge: bool,
    /// Length and huge-page backing of a separate SQE mapping; `None` when
    /// the SQE region follows the rings in the ring mapping.
    pub sqes_map: Option<SqesMap>,
}

/// A separate mapping of the SQE region.
#[derive(Debug, Clone, Copy, PartialEq, Eq, Structural)]
pub struct SqesMap {
    pub len: u64,
    /// Is it backed by a huge page?
    pub huge: bool,
}

/// Length of an anonymous mapping of `size` bytes: the size itself within
/// one page, else a whole huge page.
pub open spec fn spec_map_len(size: u64, page: u64) -> u64 {
    if size <= page {
        size
    } else {
        HUGE_PAGE_SIZE as u64
    }
}

/// Entries of a clamped ring: at most `max`, rounded up to a power of two.
pub open spec fn spec_clamped(n: u32, max: u32, r: u32) -> bool {
    let m = if n <= max {
        n
    } else {
        max
    };
    is_pow2(r as u64) && m <= r && (r == 1 || r / 2 < m)
}

/// The ring entries an anonymous arena sets up for: the SQ ring clamped,
/// the CQ ring clamped when its size was asked for, twice the SQ ring
/// otherwise (asking for that size).
pub open spec fn spec_huge_entries(before: IoUringParams, after: IoUringParams) -> bool {
    &&& spec_clamped(before.sq_entries, MAX_SQ_ENTRIES, after.sq_entries)
    &&& if has_flag(before.flags, SETUP_CQSIZE) {
        spec_clamped(before.cq_entries, MAX_CQ_ENTRIES, after.cq_entries)
            && after.flags == before.flags
    } else {
        after.cq_entries == after.sq_entries * 2 && after.flags == before.flags | SETUP_CQSIZE
    }
    &&& after == (IoUringParams {
        sq_entries: after.sq_entries,
        cq_entries: after.cq_entries,
        flags: after.flags,
        ..before
    })
}

/// The layout of an anonymous arena for parameters whose entries are set.
pub open spec fn spec_huge_layout(p: IoUringParams, s: crate::sqe::Ty, c: crate::cqe::Ty, page: u64) -> Result<HugeLayout, Error> {
    let ring_mem = IO_RINGS_SIZE + spec_cqes_mem(p, c) + spec_sq_indices_mem(p);
    let ring_size = spec_page_align(ring_mem as u64, page);
    let sqes_size = spec_page_align(spec_sqes_mem(p, s) as u64, page);
    if ring_size > HUGE_PAGE_SIZE || sqes_size > HUGE_PAGE_SIZE {
        Err(Error::ExceedsHugePage)
    } else {
        let ring_map_len = spec_map_len(ring_size as u64, page);
        Ok(
            HugeLayout {
                ring_size: ring_size as u64,
                sqes_size: sqes_size as u64,
                ring_map_len,
                ring_huge: ring_size > page,
                sqes_map: if ring_map_len >= ring_size + sqes_size {
                    None
                } else {
                    Some(SqesMap { len: spec_map_len(sqes_size as u64, page), huge: sqes_size > page })
                },
            },
        )
    }
}

fn map_len(size: u64, page: u64) -> (r: u64)
    ensures
        r == spec_map_len(size, page),
{
    if size <= page {
        size
    } else {
        HUGE_PAGE_SIZE as u64
    }
}

/// Clamp `n` to `max` and round it up to a power of two.
fn clamped(n: u32, max: u32) -> (r: u32)
    requires
        1 <= n,
        1 <= max <= 0x8000_0000,
    ensures
        spec_clamped(n, max, r),
{
    let m = if n <= max {
        n
    } else {
        max
    };
    next_power_of_two(m)
}

impl<M: Mode, S: Sqe, C: Cqe> UringArgs<M, S, C> {
    /// Fix the ring entries for an anonymous arena and lay out its
    /// regions on pages of `page` bytes; fails when a region would exceed
    /// one huge page.
    pub fn huge_layout(&mut self, page: u64) -> (r: Result<HugeLayout, Error>)
        requires
            old(self).params.sq_entries > 0,
            has_flag(old(self).params.flags, SETUP_CLAMP),
            has_flag(old(self).params.flags, SETUP_NO_MMAP),
            has_flag(old(self).params.flags, SETUP_CQSIZE) ==> old(self).params.cq_entries > 0,
            is_pow2(page),
            page <= HUGE_PAGE_SIZE,
        ensures
            spec_huge_entries(old(self).params, final(self).params),
            r == spec_huge_layout(final(self).params, S::ty(), C::ty(), page),
    {
        let sqsize = clamped(self.params.sq_entries, MAX_SQ_ENTRIES);
        if contains(self.params.flags, SETUP_CQSIZE) {
            let cqsize = clamped(self.params.cq_entries, MAX_CQ_ENTRIES);
            self.params.cq_entries = cqsize;
        } else {
            self.params.flags = self.params.flags | SETUP_CQSIZE;
            assert(sqsize <= MAX_SQ_ENTRIES) by (bit_vector)
                requires
                    sqsize as u64 != 0 && (sqsize as u64) & vstd::prelude::sub(sqsize as u64, 1u64) == 0,
                    sqsize == 1 || sqsize / 2 < 32768u32,
            ;
            self.params.cq_entries = sqsize * 2;
        }
        self.params.sq_entries = sqsize;
        assert(page <= HUGE_PAGE_SIZE);
        let ring_mem = IO_RINGS_SIZE as u64 + self.cqes_mem() + self.sq_indices_mem();
        let sqes_mem = self.sqes_mem();
        let ring_size = page_align(ring_mem, page);
        let sqes_size = page_align(sqes_mem, page);
        if ring_size > HUGE_PAGE_SIZE as u64 || sqes_size > HUGE_PAGE_SIZE as u64 {
            return Err(Error::ExceedsHugePage);
        }
        let ring_map_len = map_len(ring_size, page);
        let sqes_map = if ring_map_len >= ring_size + sqes_size {
            None
        } else {
            Some(SqesMap { len: map_len(sqes_size, page), huge: sqes_size > page })
        };
        Ok(
            HugeLayout {
                ring_size,
                sqes_size,
                ring_map_len,
                ring_huge: ring_size > page,
                sqes_map,
            },
        )
    }

    /// Tell the kernel where an anonymous arena put the rings and the SQEs.
    pub fn set_user_addrs(&mut self, ring_addr: u64, sqes_addr: u64)
        ensures
            final(self).params == (IoUringParams {
                cq_off: crate::params::CqRingOffsets { user_addr: ring_addr, ..old(self).params.cq_off },
                sq_off: crate::params::SqRingOffsets { user_addr: sqes_addr, ..old(self).params.sq_off },
                ..old(self).params
            }),
    {
        self.params.cq_off.user_addr = ring_addr;
        self.params.sq_off.user_addr = sqes_addr;
    }
}

impl HugeLayout {
    /// Address of the SQE region: after the rings in the ring mapping, or
    /// the separate mapping's; `None` if the address does not fit.
    pub fn sqes_addr(&self, ring_addr: u64, sqes_map_addr: u64) -> (r: Option<u64>)
        ensures
            self.sqes_map is Some ==> r == Some(sqes_map_addr),
            self.sqes_map is None ==> (r is Some <==> ring_addr + self.ring_size <= u64::MAX),
            self.sqes_map is None && r is Some ==> r == Some((ring_addr + self.ring_size) as u64),
    {
        match self.sqes_map {
            Some(_) => Some(sqes_map_addr),
            None => {
                if ring_addr > u64::MAX - self.ring_size {
                    None
                } else {
                    Some(ring_addr + self.ring_size)
                }
            },
        }
    }
}

} // verus!
