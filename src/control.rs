//! The control operations. Each one validates its arguments and says which
//! device-control request carries it out; performing the request is the
//! caller's part, and [`transport_outcome`] reads back what it returned.
use vstd::prelude::*;
use crate::consts::{TCFLSH, TCGETS, TCSAFLUSH, TCSANOW, TCSBRK, TCSETS, TCXONC};
use crate::error::TermiosError;
use crate::termios::termios;
use crate::types::{c_int, c_ulong};

verus! {

/// The argument that goes with a device-control command.
#[derive(Clone, Copy, Debug, PartialEq, Eq)]
pub enum IoctlArg {
    /// A small integer, passed in place of a pointer.
    Value(c_int),
    /// A record for the device to fill with the terminal's attributes.
    ReadAttrs,
    /// Attributes for the device to take; the device does not change them.
    WriteAttrs(termios),
}

/// One device-control request: the device, the command code and its argument.
#[derive(Clone, Copy, Debug, PartialEq, Eq)]
pub struct Request {
    /// The device, by its file descriptor.
    pub fd: c_int,
    /// The command code.
    pub cmd: c_ulong,
    /// The command's argument.
    pub arg: IoctlArg,
}

/// The `tcsetattr` actions are `TCSANOW`, `TCSADRAIN` and `TCSAFLUSH`: 0, 1 and 2.
pub open spec fn valid_set_action(act: c_int) -> bool {
    TCSANOW as int <= act <= TCSAFLUSH as int
}

/// The request that reads the attributes of the terminal `fd`.
pub fn tcgetattr(fd: c_int) -> (r: Request)
    ensures
        r == (Request { fd, cmd: TCGETS, arg: IoctlArg::ReadAttrs }),
{
    Request { fd, cmd: TCGETS, arg: IoctlArg::ReadAttrs }
}

/// The request that writes `value` to the terminal `fd`, at the moment that
/// `act` selects: its command is `TCSETS + act`. Any `act` but 0, 1 and 2 is
/// refused with `InvalidArgument`, and no request is made.
pub fn tcsetattr(fd: c_int, act: c_int, value: &termios) -> (r: Result<Request, TermiosError>)
    ensures
        valid_set_action(act) ==> r == Ok::<Request, TermiosError>(
            (Request { fd, cmd: (TCSETS + act) as c_ulong, arg: IoctlArg::WriteAttrs(*value) }),
        ),
        !valid_set_action(act) ==> r == Err::<Request, TermiosError>(
            TermiosError::InvalidArgument,
        ),
{
    if act < 0 || act > 2 {
        return Err(TermiosError::InvalidArgument);
    }
    Ok(Request { fd, cmd: TCSETS + act as c_ulong, arg: IoctlArg::WriteAttrs(*value) })
}

/// The request that discards the data of the queue that `queue` selects; the
/// selector goes to the device unchecked.
pub fn tcflush(fd: c_int, queue: c_int) -> (r: Request)
    ensures
        r == (Request { fd, cmd: TCFLSH, arg: IoctlArg::Value(queue) }),
{
    Request { fd, cmd: TCFLSH, arg: IoctlArg::Value(queue) }
}

/// The request that waits until all output written to `fd` has been sent.
pub fn tcdrain(fd: c_int) -> (r: Request)
    ensures
        r == (Request { fd, cmd: TCSBRK, arg: IoctlArg::Value(1) }),
{
    Request { fd, cmd: TCSBRK, arg: IoctlArg::Value(1) }
}

/// The request that sends a break on `fd`. Its length is the device's own:
/// `_dur` has no effect on the request.
pub fn tcsendbreak(fd: c_int, _dur: c_int) -> (r: Request)
    ensures
        r == (Request { fd, cmd: TCSBRK, arg: IoctlArg::Value(0) }),
{
    Request { fd, cmd: TCSBRK, arg: IoctlArg::Value(0) }
}

/// The request that suspends or restarts a direction of `fd` as `action`
/// selects; the selector goes to the device unchecked.
pub fn tcflow(fd: c_int, action: c_int) -> (r: Request)
    ensures
        r == (Request { fd, cmd: TCXONC, arg: IoctlArg::Value(action) }),
{
    Request { fd, cmd: TCXONC, arg: IoctlArg::Value(action) }
}

/// Reads what a device-control call returned: a negative value is the
/// transport's failure, reported with the error code it left (`errno`); any
/// other value is the call's result.
pub fn transport_outcome(ret: c_int, errno: c_int) -> (r: Result<c_int, TermiosError>)
    ensures
        ret < 0 ==> r == Err::<c_int, TermiosError>(TermiosError::TransportFailure(errno)),
        ret >= 0 ==> r == Ok::<c_int, TermiosError>(ret),
{
    if ret < 0 {
        Err(TermiosError::TransportFailure(errno))
    } else {
        Ok(ret)
    }
}

} // verus!
