use driver_protocol::command::{DriverCommandMetricsReportSend, VersionInfo};
use driver_protocol::types::{ProcessInfo, ProcessModuleInfo};
use driver_protocol::utils::{fixed_buffer_holds, fixed_buffer_to_str, str_to_fixed_buffer, write_error_message, zeroed_buffer};

#[test]
fn round_trip_shorter_than_capacity() {
    let mut buffer = [0xffu8; 8];
    assert!(str_to_fixed_buffer(&mut buffer, "abc"));
    assert_eq!(buffer, [b'a', b'b', b'c', 0, 0xff, 0xff, 0xff, 0xff]);
    assert_eq!(fixed_buffer_to_str(&buffer), Some("abc"));
}

#[test]
fn round_trip_non_ascii() {
    let mut buffer = [0u8; 16];
    assert!(str_to_fixed_buffer(&mut buffer, "größe"));
    assert_eq!(fixed_buffer_to_str(&buffer), Some("größe"));
}

#[test]
fn exactly_at_capacity_fits_without_terminator() {
    let mut buffer = [0xffu8; 4];
    assert!(str_to_fixed_buffer(&mut buffer, "abcd"));
    assert_eq!(&buffer, b"abcd");
    assert_eq!(fixed_buffer_to_str(&buffer), Some("abcd"));
}

#[test]
fn too_long_is_truncated_and_terminated() {
    let mut buffer = [0xffu8; 4];
    assert!(!str_to_fixed_buffer(&mut buffer, "abcdef"));
    assert_eq!(&buffer, b"abc\0");
    assert_eq!(fixed_buffer_to_str(&buffer), Some("abc"));
    let mut two = [0xffu8; 2];
    assert!(!str_to_fixed_buffer(&mut two, "abc"));
    assert_eq!(two, [b'a', 0]);
}

#[test]
fn truncation_inside_a_character_is_not_text() {
    let mut buffer = [0u8; 3];
    // '€' takes three bytes; only its first one fits after 'a' before the terminator
    assert!(!str_to_fixed_buffer(&mut buffer, "a€"));
    assert_eq!(buffer, [b'a', 0xe2, 0]);
    assert_eq!(fixed_buffer_to_str(&buffer), None);
}

#[test]
fn empty_values_and_buffers() {
    let mut buffer = [7u8; 3];
    assert!(str_to_fixed_buffer(&mut buffer, ""));
    assert_eq!(buffer, [0, 7, 7]);
    assert_eq!(fixed_buffer_to_str(&buffer), Some(""));
    let mut none: [u8; 0] = [];
    assert!(str_to_fixed_buffer(&mut none, ""));
    assert!(!str_to_fixed_buffer(&mut none, "a"));
    assert_eq!(none, []);
    assert_eq!(fixed_buffer_to_str(&none), Some(""));
}

#[test]
fn decoding_stops_at_the_first_nul() {
    assert_eq!(fixed_buffer_to_str(b"ab\0cd"), Some("ab"));
    assert_eq!(fixed_buffer_to_str(b"\xff\xfe\0"), None);
    assert_eq!(fixed_buffer_to_str(b"ok\0\xff"), Some("ok"));
}

#[test]
fn holds_compares_the_c_string() {
    assert!(fixed_buffer_holds(b"cs2.exe\0\0\0", b"cs2.exe"));
    assert!(!fixed_buffer_holds(b"cs2.exe\0\0\0", b"cs2"));
    assert!(!fixed_buffer_holds(b"cs2\0", b"cs2.exe"));
    assert!(fixed_buffer_holds(b"\0abc", b""));
    assert!(fixed_buffer_holds(b"abc", b"abc"));
}

#[test]
fn error_messages_are_always_terminated() {
    let mut small = [0xffu8; 4];
    write_error_message(&mut small, "unknown");
    assert_eq!(small, [b'u', b'n', b'k', 0]);
    let mut exact = [0xffu8; 3];
    write_error_message(&mut exact, "abc");
    assert_eq!(exact, [b'a', b'b', 0]);
    let mut large = [0xffu8; 6];
    write_error_message(&mut large, "abc");
    assert_eq!(large, [b'a', b'b', b'c', 0, 0xff, 0xff]);
    let mut empty: [u8; 0] = [];
    write_error_message(&mut empty, "abc");
}

#[test]
fn zeroed_buffers() {
    let z: [u8; 5] = zeroed_buffer();
    assert_eq!(z, [0u8; 5]);
}

#[test]
fn named_fields_of_payloads() {
    let mut process = ProcessInfo::default();
    assert_eq!(process.get_image_base_name(), Some(""));
    assert!(process.set_image_base_name("cs2.exe"));
    assert_eq!(process.get_image_base_name(), Some("cs2.exe"));
    assert!(!process.set_image_base_name("a_rather_long_name.exe"));
    assert_eq!(process.get_image_base_name(), Some("a_rather_long_"));
    assert_eq!(process.image_base_name[14], 0);

    let mut module = ProcessModuleInfo::default();
    assert!(module.set_base_dll_name("client.dll"));
    assert_eq!(module.get_base_dll_name(), Some("client.dll"));
    assert_eq!(module.base_address, 0);

    let mut version = VersionInfo::default();
    assert!(version.set_application_name("controller"));
    assert_eq!(version.get_application_name(), Some("controller"));
    assert!(version.set_application_name("x".repeat(0x20).as_str()));
    assert!(!version.set_application_name("x".repeat(0x21).as_str()));

    let mut report = DriverCommandMetricsReportSend::default();
    assert!(report.set_report_type("session-start"));
    assert_eq!(report.get_report_type(), Some("session-start"));
    report.report_type[0] = 0xff;
    assert_eq!(report.get_report_type(), None);
}
