use termios_ctl::consts::{B0, B115200, B38400, B4000000, B57600, B9600, NCCS, VMIN};
use termios_ctl::error::TermiosError;
use termios_ctl::termios::{cfgetispeed, cfgetospeed, cfsetispeed, cfsetospeed, termios};

#[test]
fn default_is_all_zero() {
    let t = termios::default();
    assert_eq!(t.c_iflag, 0);
    assert_eq!(t.c_oflag, 0);
    assert_eq!(t.c_cflag, 0);
    assert_eq!(t.c_lflag, 0);
    assert_eq!(t.c_line, 0);
    assert_eq!(t.c_cc.len(), NCCS);
    assert!(t.c_cc.iter().all(|&c| c == 0));
    assert_eq!(cfgetispeed(&t), 0);
    assert_eq!(cfgetospeed(&t), 0);
}

#[test]
fn set_input_speed_high_range() {
    let mut t = termios::default();
    assert_eq!(cfsetispeed(&mut t, B115200 as u32), Ok(()));
    assert_eq!(cfgetispeed(&t), B115200 as u32);
    assert_eq!(cfgetospeed(&t), 0);
}

#[test]
fn set_input_speed_between_blocks_is_refused() {
    let mut t = termios::default();
    cfsetispeed(&mut t, B9600 as u32).unwrap();
    let before = t;
    assert_eq!(cfsetispeed(&mut t, 0o010_000), Err(TermiosError::InvalidArgument));
    assert_eq!(t, before);
    assert_eq!(cfgetispeed(&t), B9600 as u32);
}

#[test]
fn set_output_speed_then_get() {
    let mut t = termios::default();
    assert_eq!(cfsetospeed(&mut t, B38400 as u32), Ok(()));
    assert_eq!(cfgetospeed(&t), B38400 as u32);
    assert_eq!(cfgetispeed(&t), 0);
}

#[test]
fn speed_block_edges_are_accepted() {
    for code in [B0, B38400, B57600, B4000000] {
        let mut t = termios::default();
        t.c_ospeed = 7;
        assert_eq!(cfsetispeed(&mut t, code as u32), Ok(()));
        assert_eq!(cfgetispeed(&t), code as u32);
        assert_eq!(cfsetospeed(&mut t, code as u32), Ok(()));
        assert_eq!(cfgetospeed(&t), code as u32);
    }
}

#[test]
fn speeds_outside_both_blocks_are_refused() {
    for code in [B38400 as u32 + 1, B57600 as u32 - 1, B4000000 as u32 + 1, u32::MAX] {
        let mut t = termios::default();
        t.c_cc[VMIN] = 1;
        t.c_ispeed = B9600 as u32;
        t.c_ospeed = B9600 as u32;
        let before = t;
        assert_eq!(cfsetispeed(&mut t, code), Err(TermiosError::InvalidArgument));
        assert_eq!(cfsetospeed(&mut t, code), Err(TermiosError::InvalidArgument));
        assert_eq!(t, before);
    }
}

#[test]
fn setting_speeds_keeps_the_other_fields() {
    let mut t = termios::default();
    t.c_iflag = 0o002_000;
    t.c_lflag = 0o000_012;
    t.c_line = 3;
    t.c_cc[VMIN] = 4;
    let before = t;
    cfsetispeed(&mut t, B57600 as u32).unwrap();
    cfsetospeed(&mut t, B9600 as u32).unwrap();
    assert_eq!(t.c_iflag, before.c_iflag);
    assert_eq!(t.c_lflag, before.c_lflag);
    assert_eq!(t.c_line, 3);
    assert_eq!(t.c_cc, before.c_cc);
    assert_eq!(t.c_ispeed, B57600 as u32);
    assert_eq!(t.c_ospeed, B9600 as u32);
}
