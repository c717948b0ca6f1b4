//! The two ways a terminal operation fails.
use vstd::prelude::*;
use crate::types::{c_int, EINVAL};

verus! {

/// Why a terminal operation failed.
#[derive(Clone, Copy, Debug, PartialEq, Eq, Structural)]
pub enum TermiosError {
    /// An action selector or a speed code outside its valid set; found before
    /// any device is touched.
    InvalidArgument,
    /// The device-control call itself failed, with the error code it reported.
    TransportFailure(c_int),
}

impl TermiosError {
    /// The error code that a C caller sees for this failure.
    pub open spec fn spec_errno(self) -> c_int {
        match self {
            TermiosError::InvalidArgument => EINVAL,
            TermiosError::TransportFailure(code) => code,
        }
    }

    /// The error code that a C caller sees for this failure: `EINVAL` for an
    /// invalid argument, the device's own code for a transport failure.
    pub fn errno(&self) -> (r: c_int)
        ensures
            r == self.spec_errno(),
    {
        match self {
            TermiosError::InvalidArgument => EINVAL,
            TermiosError::TransportFailure(code) => *code,
        }
    }
}

} // verus!
