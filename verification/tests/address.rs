use sysdev::address::{decode_address_content, parse_address_content, AddressError};

#[test]
fn decodes_kernel_address_line() {
    assert_eq!(
        decode_address_content(b"aa:bb:cc:dd:ee:ff\n").unwrap(),
        "aa:bb:cc:dd:ee:ff"
    );
}

#[test]
fn parses_kernel_address_line_to_bytes() {
    assert_eq!(
        parse_address_content(b"aa:bb:cc:dd:ee:ff\n").unwrap(),
        vec![0xaa, 0xbb, 0xcc, 0xdd, 0xee, 0xff]
    );
}

#[test]
fn decodes_empty_content_without_panicking() {
    assert_eq!(decode_address_content(b"").unwrap(), "");
}

#[test]
fn decodes_lone_newline_to_empty_text() {
    assert_eq!(decode_address_content(b"\n").unwrap(), "");
}

#[test]
fn drops_exactly_one_trailing_byte() {
    assert_eq!(
        decode_address_content(b"00:11:22:33:44:55").unwrap(),
        "00:11:22:33:44:5"
    );
}

#[test]
fn rejects_invalid_utf8_content() {
    assert_eq!(
        decode_address_content(&[0xff, 0xfe, b'\n']),
        Err(AddressError::Utf8)
    );
}

#[test]
fn parse_reports_utf8_error_first() {
    assert_eq!(
        parse_address_content(&[0xff, 0xfe, b'\n']),
        Err(AddressError::Utf8)
    );
}

#[test]
fn parse_reports_parse_error_on_short_text() {
    assert_eq!(parse_address_content(b"aa:bb\n"), Err(AddressError::Parse));
}

#[test]
fn decodes_multibyte_utf8_text() {
    assert_eq!(decode_address_content("päx\n".as_bytes()).unwrap(), "päx");
}
