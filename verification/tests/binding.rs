use grnvs::hexdump::{dump_output_to_string, hexdump_allowed, HEXDUMP_MAX_LEN};
use grnvs::socket::{Layer, ReadStep, Socket};

#[test]
fn layer_codes() {
    assert_eq!(Layer::SOCK_DGRAM.code(), 2);
    assert_eq!(Layer::SOCK_RAW.code(), 3);
}

#[test]
fn ifname_plain_ok() {
    assert!(Socket::check_ifname("eth0").is_ok());
    assert!(Socket::check_ifname("wlp3s0").is_ok());
}

#[test]
fn ifname_empty_ok() {
    assert!(Socket::check_ifname("").is_ok());
}

#[test]
fn ifname_embedded_nul_rejected() {
    assert!(Socket::check_ifname("eth\0zero").is_err());
}

#[test]
fn ifname_leading_nul_rejected() {
    assert!(Socket::check_ifname("\0eth0").is_err());
}

#[test]
fn ifname_trailing_nul_rejected() {
    assert!(Socket::check_ifname("eth0\0").is_err());
}

#[test]
fn ifname_non_ascii_without_nul_ok() {
    assert!(Socket::check_ifname("brücke").is_ok());
}

#[test]
fn ifname_error_message() {
    let e = Socket::check_ifname("a\0b").unwrap_err();
    assert_eq!(e.message(), "interface name contains an embedded null byte");
}

#[test]
fn open_result_accepts_valid_identifier() {
    let s = Socket::from_open_result(3).unwrap();
    assert_eq!(s.fd(), 3);
}

#[test]
fn open_result_accepts_zero_identifier() {
    let s = Socket::from_open_result(0).unwrap();
    assert_eq!(s.fd(), 0);
}

#[test]
fn open_result_rejects_negative_identifier() {
    let e = Socket::from_open_result(-1).unwrap_err();
    assert!(e.message().starts_with("Error while opening socket: "));
}

#[test]
fn read_of_empty_buffer_completes_without_boundary_call() {
    let s = Socket::from_open_result(4).unwrap();
    assert_eq!(s.read_request(0), ReadStep::Done(0));
}

#[test]
fn read_of_nonempty_buffer_calls_library() {
    let s = Socket::from_open_result(4).unwrap();
    assert_eq!(s.read_request(1500), ReadStep::Call(4));
}

#[test]
fn read_result_counts() {
    let s = Socket::from_open_result(4).unwrap();
    assert_eq!(s.read_result(0, 64).unwrap(), 0);
    assert_eq!(s.read_result(64, 64).unwrap(), 64);
    assert_eq!(s.read_result(13, 64).unwrap(), 13);
}

#[test]
fn read_result_negative_is_error() {
    let s = Socket::from_open_result(4).unwrap();
    let e = s.read_result(-1, 64).unwrap_err();
    assert!(e.message().starts_with("Error while reading from socket: "));
}

#[test]
fn write_result_count_at_most_source_length() {
    let s = Socket::from_open_result(5).unwrap();
    assert_eq!(s.write_result(10, 64).unwrap(), 10);
    assert_eq!(s.write_result(64, 64).unwrap(), 64);
    assert_eq!(s.write_result(0, 0).unwrap(), 0);
}

#[test]
fn write_result_negative_is_error() {
    let s = Socket::from_open_result(5).unwrap();
    let e = s.write_result(-1, 64).unwrap_err();
    assert!(e.message().starts_with("Error while writing to socket: "));
}

#[test]
fn close_runs_underlying_close_exactly_once() {
    let mut s = Socket::from_open_result(7).unwrap();
    assert_eq!(s.close(), Some(7));
    assert_eq!(s.close(), None);
    assert_eq!(s.close(), None);
}

#[test]
fn hexdump_gate_boundary() {
    assert!(hexdump_allowed(0));
    assert!(hexdump_allowed(1));
    assert!(hexdump_allowed(HEXDUMP_MAX_LEN));
    assert!(!hexdump_allowed(HEXDUMP_MAX_LEN + 1));
    assert!(!hexdump_allowed(usize::MAX));
}

#[test]
fn dump_output_valid_text_decodes_to_itself() {
    let bytes = b"0000:  de ad be ef  |....|\n";
    assert_eq!(dump_output_to_string(bytes), "0000:  de ad be ef  |....|\n");
}

#[test]
fn dump_output_invalid_bytes_get_replacement_marker() {
    let bytes = [0x61, 0xFF, 0x62];
    assert_eq!(dump_output_to_string(&bytes), "a\u{FFFD}b");
}

// The decisions behind opening an endpoint on the raw layer, writing one
// 64-byte frame and reading it back: every raw count the underlying
// library would report on such a loopback exchange is interpreted as the
// same 64-byte count on both sides.
#[test]
fn raw_frame_round_trip_decisions() {
    assert!(Socket::check_ifname("lo").is_ok());
    assert_eq!(Layer::SOCK_RAW.code(), 3);
    let mut s = Socket::from_open_result(6).unwrap();
    assert_eq!(s.write_result(64, 64).unwrap(), 64);
    assert_eq!(s.read_request(64), ReadStep::Call(6));
    assert_eq!(s.read_result(64, 64).unwrap(), 64);
    assert_eq!(s.close(), Some(6));
}
