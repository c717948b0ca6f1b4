//! The address of a local socket, named by a filesystem path.
use vstd::prelude::*;
use crate::types::{c_char, sa_family_t};

verus! {

/// A local-socket address: the address family, then the path as a
/// zero-terminated byte string in a buffer of 108.
#[derive(Clone, Copy)]
pub struct sockaddr_un {
    pub sun_family: sa_family_t,
    pub sun_path: [c_char; 108],
}

} // verus!
