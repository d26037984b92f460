//! The error type shared by all fallible control-plane operations.

use vstd::prelude::*;

verus! {

/// Why a control-plane operation failed.
#[derive(Clone, Copy, Debug, PartialEq, Eq, Structural)]
pub enum TunError {
    /// A control or open operation failed in the operating system;
    /// carries the platform error code, propagated verbatim and never
    /// retried.
    OsCallFailed(i32),
}

impl TunError {
    /// The platform error code behind this error.
    pub fn code(&self) -> (r: i32)
        ensures
            *self == TunError::OsCallFailed(r),
    {
        match self {
            TunError::OsCallFailed(code) => *code,
        }
    }
}

} // verus!
