use wox_overlay::decimal::{bounded_number, decimal};
use wox_overlay::startup::{
    check_process, check_wox_alive, get_server_port, get_windows_height, parent_process,
    parse_pid, parse_port, server_port, ParentProcess, WatchdogAction, DEFAULT_PORT,
};

fn args(list: &[&str]) -> Vec<String> {
    list.iter().map(|s| s.to_string()).collect()
}

#[test]
fn decimal_notation() {
    assert_eq!(decimal(0), "0");
    assert_eq!(decimal(7), "7");
    assert_eq!(decimal(10), "10");
    assert_eq!(decimal(34987), "34987");
    assert_eq!(decimal(u64::MAX), "18446744073709551615");
}

#[test]
fn bounded_number_reads_digits_up_to_the_limit() {
    assert_eq!(bounded_number("123", 0, 200), Some(123));
    assert_eq!(bounded_number("x123", 1, 200), Some(123));
    assert_eq!(bounded_number("201", 0, 200), None);
    assert_eq!(bounded_number("200", 0, 200), Some(200));
    assert_eq!(bounded_number("0000000000000000000000000200", 0, 200), Some(200));
    assert_eq!(bounded_number("", 0, 200), None);
    assert_eq!(bounded_number("12", 2, 200), None);
    assert_eq!(bounded_number("12", 9, 200), None);
    assert_eq!(bounded_number("1a", 0, 200), None);
    assert_eq!(bounded_number("999999999999999999999999999999", 0, 0xffff_ffff_ffff), None);
    assert_eq!(bounded_number("9999x", 0, 200), None);
    assert_eq!(bounded_number("é5", 1, 200), Some(5));
}

#[test]
fn parse_port_reads_what_u16_reads() {
    let texts = [
        "0", "1", "80", "34987", "65535", "65536", "99999", "+80", "++80", "-80", "-0", "+", "",
        " 80", "80 ", "0080", "0x50", "8_0", "٣", "１２", "4294967376", "00000000000000065535", "+65536",
    ];
    for text in texts {
        assert_eq!(parse_port(text), text.parse::<u16>().ok(), "{:?}", text);
    }
    assert_eq!(parse_port("34987"), Some(34987));
    assert_eq!(parse_port("65536"), None);
}

#[test]
fn parse_pid_reads_what_i32_reads() {
    let texts = [
        "0", "1", "4242", "2147483647", "2147483648", "-2147483648", "-2147483649", "+7", "-7",
        "-0", "+-7", "-+7", "--7", "-", "+", "", "7 ", " 7", "007", "-007", "1e3", "99999999999999999999",
        "-99999999999999999999",
    ];
    for text in texts {
        assert_eq!(parse_pid(text), text.parse::<i32>().ok(), "{:?}", text);
    }
    assert_eq!(parse_pid("-2147483648"), Some(i32::MIN));
}

#[test]
fn server_port_is_the_first_argument_or_the_default() {
    assert_eq!(DEFAULT_PORT, 34987);
    assert_eq!(server_port(&args(&[])), 34987);
    assert_eq!(server_port(&args(&["ui"])), 34987);
    assert_eq!(server_port(&args(&["ui", "8080"])), 8080);
    assert_eq!(server_port(&args(&["ui", "8080", "77"])), 8080);
    assert_eq!(server_port(&args(&["ui", "port"])), 34987);
    assert_eq!(server_port(&args(&["ui", "70000"])), 34987);
    assert_eq!(server_port(&args(&["ui", ""])), 34987);
    assert_eq!(get_server_port(&args(&["ui", "8080"])), "8080");
    assert_eq!(get_server_port(&args(&["ui", "+0012"])), "12");
    assert_eq!(get_server_port(&args(&["ui"])), "34987");
}

#[test]
fn parent_process_is_the_second_argument() {
    assert_eq!(parent_process(&args(&["ui"])), ParentProcess::NotGiven);
    assert_eq!(parent_process(&args(&["ui", "8080"])), ParentProcess::NotGiven);
    assert_eq!(parent_process(&args(&["ui", "8080", "4242"])), ParentProcess::Pid(4242));
    assert_eq!(parent_process(&args(&["ui", "8080", "-1", "x"])), ParentProcess::Pid(-1));
    assert_eq!(parent_process(&args(&["ui", "8080", "wox"])), ParentProcess::Invalid);
    assert_eq!(parent_process(&args(&["ui", "8080", ""])), ParentProcess::Invalid);
}

#[test]
fn negative_numbers_name_no_process() {
    assert_eq!(check_process(4242), Some(4242));
    assert_eq!(check_process(0), Some(0));
    assert_eq!(check_process(i32::MAX), Some(2147483647));
    assert_eq!(check_process(-1), None);
    assert_eq!(check_process(i32::MIN), None);
}

#[test]
fn watchdog_leaves_when_the_process_is_gone() {
    assert_eq!(check_wox_alive(true), WatchdogAction::LookAgainAfter(3000));
    assert_eq!(check_wox_alive(false), WatchdogAction::Exit(0));
}

#[test]
fn window_height_adds_the_padding_to_sixty() {
    assert_eq!(get_windows_height(0, 0), Some(60));
    assert_eq!(get_windows_height(20, 12), Some(92));
    assert_eq!(get_windows_height(-70, 5), Some(-5));
    assert_eq!(get_windows_height(2147483587, 0), Some(i32::MAX));
    assert_eq!(get_windows_height(2147483587, 1), None);
    assert_eq!(get_windows_height(-2147483708, 0), Some(i32::MIN));
    assert_eq!(get_windows_height(-2147483708, -1), None);
    assert_eq!(get_windows_height(i64::MAX, i64::MAX), None);
    assert_eq!(get_windows_height(i64::MIN, i64::MIN), None);
    assert_eq!(get_windows_height(i64::MAX, i64::MIN), Some(59));
}
