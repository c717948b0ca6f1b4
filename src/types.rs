//! The C-compatible scalar types that the records and operations use.
use vstd::prelude::*;

verus! {

/// The C `int`.
pub type c_int = i32;

/// The C `unsigned long` of a 64-bit target: the width of a device-control
/// command code.
pub type c_ulong = u64;

/// The C `char` of the target: a signed byte.
pub type c_char = i8;

/// One control-character slot.
pub type cc_t = u8;

/// A baud-rate code (not a bit rate).
pub type speed_t = u32;

/// A word of mode flags.
pub type tcflag_t = u32;

/// The address-family discriminator of a socket address.
pub type sa_family_t = u16;

/// The error code of an invalid argument.
pub const EINVAL: c_int = 22;

} // verus!
