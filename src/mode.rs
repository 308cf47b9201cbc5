//! Execution modes: kernel-polled completions (`Iopoll`) and a kernel
//! thread polling submissions (`Sqpoll`).
use vstd::prelude::*;
use crate::flags::{ENTER_GETEVENTS, SETUP_IOPOLL, SETUP_SQPOLL};

verus! {

#[derive(Debug, Clone, Copy, PartialEq, Eq, Structural)]
pub enum Ty {
    Iopoll,
    Sqpoll,
}

/// Setup flag that selects a mode.
pub open spec fn spec_setup_flag(t: Ty) -> u32 {
    match t {
        Ty::Iopoll => SETUP_IOPOLL,
        Ty::Sqpoll => SETUP_SQPOLL,
    }
}

/// Enter flag that every enter call of a mode carries.
pub open spec fn spec_enter_flag(t: Ty) -> u32 {
    match t {
        Ty::Iopoll => ENTER_GETEVENTS,
        Ty::Sqpoll => 0,
    }
}

impl Ty {
    pub fn setup_flag(&self) -> (r: u32)
        ensures
            r == spec_setup_flag(*self),
    {
        match self {
            Ty::Iopoll => SETUP_IOPOLL,
            Ty::Sqpoll => SETUP_SQPOLL,
        }
    }

    pub fn enter_flag(&self) -> (r: u32)
        ensures
            r == spec_enter_flag(*self),
    {
        match self {
            Ty::Iopoll => ENTER_GETEVENTS,
            Ty::Sqpoll => 0,
        }
    }
}

/// ## Mode
pub trait Mode {
    spec fn ty() -> Ty;

    fn kind() -> (r: Ty)
        ensures
            r == Self::ty(),
    ;
}

/// ## Iopoll
#[derive(Debug)]
pub struct Iopoll;

impl Mode for Iopoll {
    open spec fn ty() -> Ty {
        Ty::Iopoll
    }

    fn kind() -> (r: Ty) {
        Ty::Iopoll
    }
}

/// ## Sqpoll
#[derive(Debug)]
pub struct Sqpoll;

impl Mode for Sqpoll {
    open spec fn ty() -> Ty {
        Ty::Sqpoll
    }

    fn kind() -> (r: Ty) {
        Ty::Sqpoll
    }
}

} // verus!
