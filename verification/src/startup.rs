//! What the program is started with: the port of the control server, the
//! process to watch, and the height of the window.

use crate::decimal::{bounded_number, decimal, spec_bounded_number, spec_decimal};
use vstd::prelude::*;
use vstd::string::StrSliceExecFns;

verus! {

/// The port of the control server where none is given.
pub const DEFAULT_PORT: u16 = 34987;

/// Milliseconds between two looks at the watched process.
pub const WATCH_INTERVAL_MILLIS: u64 = 3000;

/// The height of the window without the theme's padding.
pub const BASE_WINDOW_HEIGHT: i64 = 60;

/// Whether a text starts with the character `sign`.
pub open spec fn starts_with_sign(s: Seq<char>, sign: char) -> bool {
    s.len() > 0 && s[0] == sign
}

/// The port that a text stands for: digits, with or without a `+` before
/// them, for a number up to 65535.
pub open spec fn spec_parse_port(s: Seq<char>) -> Option<u16> {
    let start: int = if starts_with_sign(s, '+') {
        1
    } else {
        0
    };
    match spec_bounded_number(s, start, 0xffff) {
        Some(v) => Some(v as u16),
        None => None,
    }
}

/// Reads a port: digits, with or without a `+` before them, for a number up
/// to 65535. Anything else is `None`.
pub fn parse_port(s: &str) -> (r: Option<u16>)
    ensures
        r == spec_parse_port(s@),
{
    let signed = s.unicode_len() > 0 && s.get_char(0) == '+';
    let start: usize = if signed {
        1
    } else {
        0
    };
    match bounded_number(s, start, 0xffff) {
        Some(v) => Some(v as u16),
        None => None,
    }
}

/// The port of the control server: the first argument after the program's
/// name where it is a port, the default otherwise.
pub open spec fn spec_server_port(args: Seq<String>) -> u16 {
    if args.len() > 1 {
        match spec_parse_port(args[1]@) {
            Some(port) => port,
            None => DEFAULT_PORT,
        }
    } else {
        DEFAULT_PORT
    }
}

/// The port of the control server: the first argument after the program's
/// name where it is a port, 34987 where it is missing or no port.
pub fn server_port(args: &Vec<String>) -> (r: u16)
    ensures
        r == spec_server_port(args@),
{
    if args.len() > 1 {
        match parse_port(args[1].as_str()) {
            Some(port) => port,
            None => DEFAULT_PORT,
        }
    } else {
        DEFAULT_PORT
    }
}

/// The port of the control server in decimal notation.
pub fn get_server_port(args: &Vec<String>) -> (r: String)
    ensures
        r@ == spec_decimal(spec_server_port(args@) as nat),
{
    decimal(server_port(args) as u64)
}

/// The process id that a text stands for: digits, with or without a `+` or
/// a `-` before them, for a number that fits 32 bits.
pub open spec fn spec_parse_pid(s: Seq<char>) -> Option<i32> {
    if starts_with_sign(s, '-') {
        match spec_bounded_number(s, 1, 0x8000_0000) {
            Some(v) => Some((-v) as i32),
            None => None,
        }
    } else {
        let start: int = if starts_with_sign(s, '+') {
            1
        } else {
            0
        };
        match spec_bounded_number(s, start, 0x7fff_ffff) {
            Some(v) => Some(v as i32),
            None => None,
        }
    }
}

/// Reads a process id: digits, with or without a sign before them, for a
/// number that fits 32 bits. Anything else is `None`.
pub fn parse_pid(s: &str) -> (r: Option<i32>)
    ensures
        r == spec_parse_pid(s@),
{
    let first: Option<char> = if s.unicode_len() > 0 {
        Some(s.get_char(0))
    } else {
        None
    };
    if first == Some('-') {
        match bounded_number(s, 1, 0x8000_0000) {
            Some(v) => {
                let negative: i64 = -(v as i64);
                Some(negative as i32)
            },
            None => None,
        }
    } else {
        let start: usize = if first == Some('+') {
            1
        } else {
            0
        };
        match bounded_number(s, start, 0x7fff_ffff) {
            Some(v) => Some(v as i32),
            None => None,
        }
    }
}

/// The process that the program is asked to watch.
#[derive(Clone, Copy, Debug, PartialEq, Eq, Structural)]
pub enum ParentProcess {
    /// No process id was given: nothing is watched.
    NotGiven,
    /// What was given is no process id.
    Invalid,
    /// The process with this id is watched.
    Pid(i32),
}

/// The process to watch: the second argument after the program's name.
pub open spec fn spec_parent_process(args: Seq<String>) -> ParentProcess {
    if args.len() > 2 {
        match spec_parse_pid(args[2]@) {
            Some(pid) => ParentProcess::Pid(pid),
            None => ParentProcess::Invalid,
        }
    } else {
        ParentProcess::NotGiven
    }
}

/// The process to watch: the second argument after the program's name.
pub fn parent_process(args: &Vec<String>) -> (r: ParentProcess)
    ensures
        r == spec_parent_process(args@),
{
    if args.len() > 2 {
        match parse_pid(args[2].as_str()) {
            Some(pid) => ParentProcess::Pid(pid),
            None => ParentProcess::Invalid,
        }
    } else {
        ParentProcess::NotGiven
    }
}

/// The id under which the process table holds a process, `None` for a
/// negative number, which names no process.
pub fn check_process(pid: i32) -> (r: Option<usize>)
    ensures
        pid < 0 ==> r is None,
        pid >= 0 ==> r == Some(pid as usize),
{
    if pid < 0 {
        None
    } else {
        Some(pid as usize)
    }
}

/// What the watchdog does after a look at the watched process.
#[derive(Clone, Copy, Debug, PartialEq, Eq, Structural)]
pub enum WatchdogAction {
    /// The process is gone: leave, with this exit code.
    Exit(i32),
    /// The process is there: look again after so many milliseconds.
    LookAgainAfter(u64),
}

/// The watchdog: the program leaves with code 0 once the watched process is
/// gone, and looks again after three seconds as long as it is there.
pub fn check_wox_alive(alive: bool) -> (r: WatchdogAction)
    ensures
        alive ==> r == WatchdogAction::LookAgainAfter(WATCH_INTERVAL_MILLIS),
        !alive ==> r == WatchdogAction::Exit(0),
{
    if alive {
        WatchdogAction::LookAgainAfter(WATCH_INTERVAL_MILLIS)
    } else {
        WatchdogAction::Exit(0)
    }
}

/// The height of the window for a theme's padding.
pub open spec fn spec_windows_height(app_padding_top: i64, app_padding_bottom: i64) -> int {
    BASE_WINDOW_HEIGHT + app_padding_top + app_padding_bottom
}

/// The height of the window: 60 and the theme's padding above and below.
/// `None` where that is no 32-bit number.
pub fn get_windows_height(app_padding_top: i64, app_padding_bottom: i64) -> (r: Option<i32>)
    ensures
        match r {
            Some(height) => height == spec_windows_height(app_padding_top, app_padding_bottom),
            None => !(i32::MIN <= spec_windows_height(app_padding_top, app_padding_bottom)
                <= i32::MAX),
        },
{
    let top: i128 = app_padding_top as i128;
    let bottom: i128 = app_padding_bottom as i128;
    let height: i128 = (BASE_WINDOW_HEIGHT as i128) + top + bottom;
    if height < -0x8000_0000 || height > 0x7fff_ffff {
        None
    } else {
        Some(height as i32)
    }
}

} // verus!
