//! # Uring IO
//!
//! Userspace side of the io_uring shared rings: setup arguments, ring
//! layout, the submission and completion protocols and the operation
//! encoders, with their contracts.
pub mod arena;
pub mod args;
pub mod completion;
pub mod cqe;
pub mod enter;
pub mod error;
pub mod flags;
pub mod index;
pub mod mode;
pub mod op;
pub mod params;
pub mod ring;
pub mod sqe;
pub mod submission;
pub mod uring;
