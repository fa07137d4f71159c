//! Tests of the protocol module

use ezpc::debugger::protocol::{calculate_checksum, format_packet, parse_packet};

#[test]
fn test_calculate_checksum() {
    // q=0x71, S=0x53, u=0x75, p=0x70, p=0x70, o=0x6f, r=0x72, t=0x74, e=0x65, d=0x64
    // Sum = 0x437 = 1079, mod 256 = 55 = 0x37
    assert_eq!(calculate_checksum("qSupported"), 0x37);
    assert_eq!(calculate_checksum("g"), 0x67);
    assert_eq!(calculate_checksum(""), 0x00);
}

#[test]
fn test_format_packet() {
    assert_eq!(format_packet("qSupported"), "$qSupported#37");
    assert_eq!(format_packet("g"), "$g#67");
    assert_eq!(format_packet(""), "$#00");
}

#[test]
fn test_parse_packet_valid() {
    let raw = b"$qSupported#37";
    assert_eq!(parse_packet(raw), Some("qSupported".to_string()));

    let raw = b"$g#67";
    assert_eq!(parse_packet(raw), Some("g".to_string()));
}

#[test]
fn test_parse_packet_invalid_checksum() {
    let raw = b"$qSupported#ff"; // Wrong checksum
    assert_eq!(parse_packet(raw), None);
}

#[test]
fn test_parse_packet_incomplete() {
    let raw = b"$qSupported"; // Missing # and checksum
    assert_eq!(parse_packet(raw), None);

    let raw = b"$qSupported#"; // Missing checksum digits
    assert_eq!(parse_packet(raw), None);
}

#[test]
fn test_parse_packet_with_prefix() {
    let raw = b"+$g#67"; // ACK before packet
    assert_eq!(parse_packet(raw), Some("g".to_string()));
}
