//! The `termios` record: one terminal's line-discipline configuration, and the
//! accessors of its two speed words.
use vstd::prelude::*;
use crate::consts::{B0, B38400, B4000000, B57600, NCCS};
use crate::error::TermiosError;
use crate::types::{cc_t, speed_t, tcflag_t};

verus! {

/// A terminal's configuration: four words of mode flags, the line-discipline
/// selector, the control-character slots and the two baud-rate codes, in the
/// order of the kernel's record.
#[derive(Clone, Copy, Debug, PartialEq, Eq)]
pub struct termios {
    /// Input-mode flags.
    pub c_iflag: tcflag_t,
    /// Output-mode flags.
    pub c_oflag: tcflag_t,
    /// Control-mode flags.
    pub c_cflag: tcflag_t,
    /// Local-mode flags.
    pub c_lflag: tcflag_t,
    /// Line-discipline selector, passed through as it is.
    pub c_line: cc_t,
    /// Control characters, indexed by the `V*` slot constants.
    pub c_cc: [cc_t; NCCS],
    /// Baud-rate code of the input direction.
    pub c_ispeed: speed_t,
    /// Baud-rate code of the output direction.
    pub c_ospeed: speed_t,
}

/// A baud-rate code lies in the standard block `B0..=B38400` or in the
/// extended block `B57600..=B4000000`; the codes between them are not speeds.
pub open spec fn valid_speed(speed: speed_t) -> bool {
    (B0 as int <= speed as int <= B38400 as int) || (B57600 as int <= speed as int
        <= B4000000 as int)
}

impl termios {
    /// Every field, and every control-character slot, is zero.
    pub open spec fn is_zeroed(self) -> bool {
        &&& self.c_iflag == 0
        &&& self.c_oflag == 0
        &&& self.c_cflag == 0
        &&& self.c_lflag == 0
        &&& self.c_line == 0
        &&& forall|i: int| 0 <= i < NCCS ==> self.c_cc[i] == 0
        &&& self.c_ispeed == 0
        &&& self.c_ospeed == 0
    }

    /// The record with its input speed replaced, all else kept.
    pub open spec fn with_input_speed(self, speed: speed_t) -> termios {
        termios { c_ispeed: speed, ..self }
    }

    /// The record with its output speed replaced, all else kept.
    pub open spec fn with_output_speed(self, speed: speed_t) -> termios {
        termios { c_ospeed: speed, ..self }
    }
}

impl Default for termios {
    /// The all-zero configuration.
    fn default() -> (r: termios)
        ensures
            r.is_zeroed(),
    {
        termios {
            c_iflag: 0,
            c_oflag: 0,
            c_cflag: 0,
            c_lflag: 0,
            c_line: 0,
            c_cc: [0u8; NCCS],
            c_ispeed: 0,
            c_ospeed: 0,
        }
    }
}

/// Decides `valid_speed` on a code.
fn speed_in_range(speed: speed_t) -> (r: bool)
    ensures
        r == valid_speed(speed),
{
    let s = speed as usize;
    s <= B38400 || (B57600 <= s && s <= B4000000)
}

/// The input baud-rate code of `termios_p`.
pub fn cfgetispeed(termios_p: &termios) -> (r: speed_t)
    ensures
        r == termios_p.c_ispeed,
{
    termios_p.c_ispeed
}

/// The output baud-rate code of `termios_p`.
pub fn cfgetospeed(termios_p: &termios) -> (r: speed_t)
    ensures
        r == termios_p.c_ospeed,
{
    termios_p.c_ospeed
}

/// Sets the input baud-rate code. A code outside both valid blocks is
/// refused with `InvalidArgument` and the record is left as it was.
pub fn cfsetispeed(termios_p: &mut termios, speed: speed_t) -> (r: Result<(), TermiosError>)
    ensures
        valid_speed(speed) ==> r is Ok && *final(termios_p) == old(termios_p).with_input_speed(
            speed,
        ),
        !valid_speed(speed) ==> r == Err::<(), TermiosError>(TermiosError::InvalidArgument)
            && *final(termios_p) == *old(termios_p),
{
    if speed_in_range(speed) {
        termios_p.c_ispeed = speed;
        Ok(())
    } else {
        Err(TermiosError::InvalidArgument)
    }
}

/// Sets the output baud-rate code. A code outside both valid blocks is
/// refused with `InvalidArgument` and the record is left as it was.
pub fn cfsetospeed(termios_p: &mut termios, speed: speed_t) -> (r: Result<(), TermiosError>)
    ensures
        valid_speed(speed) ==> r is Ok && *final(termios_p) == old(termios_p).with_output_speed(
            speed,
        ),
        !valid_speed(speed) ==> r == Err::<(), TermiosError>(TermiosError::InvalidArgument)
            && *final(termios_p) == *old(termios_p),
{
    if speed_in_range(speed) {
        termios_p.c_ospeed = speed;
        Ok(())
    } else {
        Err(TermiosError::InvalidArgument)
    }
}

/// Reading a speed right after setting it to a valid code gives that code
/// back, and setting the input speed leaves the output speed as it was.
pub proof fn lemma_input_speed_set_then_get(t: termios, speed: speed_t)
    requires
        valid_speed(speed),
    ensures
        t.with_input_speed(speed).c_ispeed == speed,
        t.with_input_speed(speed).c_ospeed == t.c_ospeed,
{
}

/// Reading a speed right after setting it to a valid code gives that code
/// back, and setting the output speed leaves the input speed as it was.
pub proof fn lemma_output_speed_set_then_get(t: termios, speed: speed_t)
    requires
        valid_speed(speed),
    ensures
        t.with_output_speed(speed).c_ospeed == speed,
        t.with_output_speed(speed).c_ispeed == t.c_ispeed,
{
}

} // verus!
