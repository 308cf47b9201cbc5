//! Failures that the library's own rules produce. Errors of the kernel
//! calls are carried by the code that makes them.
use vstd::prelude::*;

verus! {

#[derive(Debug, Clone, Copy, PartialEq, Eq, Structural)]
pub enum Error {
    /// The kernel did not report a feature that the library relies on;
    /// the value is the feature's bit.
    FeatureNotSupported(u32),
    /// The ring descriptor is already registered.
    RingFdRegistered,
    /// The kernel did not register exactly one descriptor.
    RegisterRingFdFailed,
    /// A ring region would exceed one huge page.
    ExceedsHugePage,
    /// The ring was set up without a submission index array.
    NoSqArray,
    /// The system page size is not a power of two.
    BadPageSize,
}

} // verus!
