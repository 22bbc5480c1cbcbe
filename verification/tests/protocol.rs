use open_protocol_device_simulator::protocol::parser::{parse_message, read_digits, ProtocolError};
use open_protocol_device_simulator::protocol::serializer::serialize_response;
use open_protocol_device_simulator::protocol::text::{
    decimal_string, parse_decimal_field, parse_unsigned, trim_chars, utf8_chars,
};
use open_protocol_device_simulator::protocol::Response;

#[test]
fn parse_reads_header_and_data() {
    let message = parse_message(b"00240038002         0042").unwrap();
    assert_eq!((message.length, message.mid, message.revision), (24, 38, 2));
    assert_eq!(message.data, b"0042".to_vec());
}

#[test]
fn blank_or_zero_revision_means_revision_1() {
    assert_eq!(parse_message(b"00209999            ").unwrap().revision, 1);
    assert_eq!(parse_message(b"00209999000         ").unwrap().revision, 1);
}

#[test]
fn parse_errors() {
    assert_eq!(parse_message(b"0020").unwrap_err(), ProtocolError::TooShort);
    assert_eq!(parse_message(b"00x09999001         ").unwrap_err(), ProtocolError::InvalidLength);
    assert_eq!(parse_message(b"0020MID!001         ").unwrap_err(), ProtocolError::InvalidMid);
    assert_eq!(parse_message(b"00209999256         ").unwrap_err(), ProtocolError::InvalidRevision);
    assert_eq!(parse_message(b"00209999 1          ").unwrap_err(), ProtocolError::InvalidRevision);
    assert_eq!(parse_message(b"00219999001         ").unwrap_err(), ProtocolError::LengthMismatch);
}

#[test]
fn serialize_writes_header_and_data() {
    let frame = serialize_response(&Response::new(5, 1, b"0038".to_vec()));
    assert_eq!(frame, b"00240005001         0038".to_vec());
}

#[test]
fn serialize_then_parse_gives_the_message_back() {
    let response = Response::new(215, 2, b"010002".to_vec());
    let frame = serialize_response(&response);
    let message = parse_message(&frame).unwrap();
    assert_eq!((message.length as usize, message.mid, message.revision), (frame.len(), 215, 2));
    assert_eq!(message.data, response.data);
}

#[test]
fn read_digits_reads_fixed_width_numbers() {
    assert_eq!(read_digits(b"xx0042", 2, 4), Some(42));
    assert_eq!(read_digits(b"12a4", 0, 4), None);
    assert_eq!(read_digits(b"9999", 0, 4), Some(9999));
}

#[test]
fn unsigned_text_reading() {
    let chars = |s: &str| s.chars().collect::<Vec<char>>();
    assert_eq!(parse_unsigned(&chars("+17"), 100), Some(17));
    assert_eq!(parse_unsigned(&chars("101"), 100), None);
    assert_eq!(parse_unsigned(&chars(""), 100), None);
    assert_eq!(parse_unsigned(&chars("+"), 100), None);
    assert_eq!(parse_unsigned(&chars("-1"), 100), None);
    assert_eq!(trim_chars(&chars("\t a b \u{3000}")), chars("a b"));
    assert_eq!(parse_decimal_field(b" 42 ", true, 255), Some(42));
    assert_eq!(parse_decimal_field(b" 42 ", false, 255), None);
    assert_eq!(utf8_chars(&[0xc3, 0xa9]), Some(vec!['é']));
    assert_eq!(utf8_chars(&[0xc3]), None);
    assert_eq!(decimal_string(4096), "4096");
}
