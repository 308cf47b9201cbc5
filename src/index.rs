//! The submission index array, which maps ring slots to SQE indices. The
//! library sets it to the identity once and never touches it again.
use std::sync::atomic::{AtomicU32, Ordering};
use vstd::prelude::*;
use crate::error::Error;
use crate::flags::{SETUP_NO_SQARRAY, contains, has_flag};
use crate::params::IoUringParams;

verus! {

/// ## Submission Index
#[derive(Debug)]
pub struct SubmissionIndex<'fd> {
    pub indices: &'fd [AtomicU32],
}

impl<'fd> SubmissionIndex<'fd> {
    /// A view of the index array; there is none when the ring was set up
    /// without it.
    pub fn new(indices: &'fd [AtomicU32], params: &IoUringParams) -> (r: Result<Self, Error>)
        ensures
            r is Err <==> has_flag(params.flags, SETUP_NO_SQARRAY),
            r matches Err(e) ==> e == Error::NoSqArray,
            r matches Ok(i) ==> i.indices == indices,
    {
        if contains(params.flags, SETUP_NO_SQARRAY) {
            return Err(Error::NoSqArray);
        }
        Ok(SubmissionIndex { indices })
    }

    /// Set slot `i` to SQE index `i`, for every slot, unless the ring has
    /// no index array.
    pub fn setup(indices: &'fd [AtomicU32], params: &IoUringParams) {
        if contains(params.flags, SETUP_NO_SQARRAY) {
            return ;
        }
        let n: usize = indices.len();
        let mut i: usize = 0;
        while i < n
            invariant
                n == indices@.len(),
                i <= n,
            decreases n - i,
        {
            indices[i].store(i as u32, Ordering::Relaxed);
            i = i + 1;
        }
    }
}

} // verus!
