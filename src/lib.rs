//! Terminal attributes: the `termios` configuration record, the constants that
//! give its bits, slots and codes their meaning, and the control operations
//! that turn a high-level request into the device-control command that
//! carries it out.
//!
//! The library does no I/O. Each control operation validates its arguments and
//! returns a [`control::Request`]: the command code and argument that the
//! caller hands to the device. The outcome of that call comes back through
//! [`control::transport_outcome`].
#![allow(non_camel_case_types)]
#![allow(non_upper_case_globals)]

pub mod consts;
pub mod control;
pub mod error;
pub mod sys_un;
pub mod termios;
pub mod types;
