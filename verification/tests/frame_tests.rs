use segmented_fetch::error::FetchError;
use segmented_fetch::frame::{find_delimiter, segment_payload, split};

#[test]
fn split_cuts_after_first_blank_line() {
    let raw = b"HTTP/1.1 200 OK\r\nContent-Length: 5\r\n\r\nhello";
    let response = split(raw).unwrap();
    assert_eq!(response.header_bytes, b"HTTP/1.1 200 OK\r\nContent-Length: 5\r\n\r\n".to_vec());
    assert_eq!(response.payload_bytes, b"hello".to_vec());
}

#[test]
fn split_round_trip_joins_to_raw() {
    let header = b"HTTP/1.1 206 Partial Content\r\nX: y".to_vec();
    let payload = vec![0u8, 255, 13, 10, 13, 10, 7];
    let mut raw = header.clone();
    raw.extend_from_slice(b"\r\n\r\n");
    raw.extend_from_slice(&payload);
    let response = split(&raw).unwrap();
    let mut expected_header = header.clone();
    expected_header.extend_from_slice(b"\r\n\r\n");
    assert_eq!(response.header_bytes, expected_header);
    assert_eq!(response.payload_bytes, payload);
    let mut joined = response.header_bytes.clone();
    joined.extend_from_slice(&response.payload_bytes);
    assert_eq!(joined, raw);
}

#[test]
fn split_without_delimiter_is_framing_error() {
    assert_eq!(split(b"HTTP/1.1 200 OK\r\nContent-Length: 0\r\n"), Err(FetchError::FramingError));
    assert_eq!(split(b""), Err(FetchError::FramingError));
    assert_eq!(split(b"\r\n\r"), Err(FetchError::FramingError));
    assert_eq!(split(b"\n\r\n\r"), Err(FetchError::FramingError));
}

#[test]
fn split_with_empty_payload_succeeds() {
    let response = split(b"HTTP/1.1 200 OK\r\n\r\n").unwrap();
    assert_eq!(response.header_bytes, b"HTTP/1.1 200 OK\r\n\r\n".to_vec());
    assert!(response.payload_bytes.is_empty());
}

#[test]
fn split_takes_the_first_of_two_delimiters() {
    let response = split(b"a\r\n\r\nb\r\n\r\nc").unwrap();
    assert_eq!(response.header_bytes, b"a\r\n\r\n".to_vec());
    assert_eq!(response.payload_bytes, b"b\r\n\r\nc".to_vec());
}

#[test]
fn header_ending_in_line_break_moves_the_cut() {
    // The header "x\r\n" followed by the delimiter holds a blank line two
    // bytes before the appended one.
    let response = split(b"x\r\n\r\n\r\nbody").unwrap();
    assert_eq!(response.header_bytes, b"x\r\n\r\n".to_vec());
    assert_eq!(response.payload_bytes, b"\r\nbody".to_vec());
}

#[test]
fn split_tolerates_bytes_that_are_not_text() {
    let raw = vec![0xff, 0xfe, 13, 10, 13, 10, 0x80, 0x81];
    let response = split(&raw).unwrap();
    assert_eq!(response.header_bytes, vec![0xff, 0xfe, 13, 10, 13, 10]);
    assert_eq!(response.payload_bytes, vec![0x80, 0x81]);
}

#[test]
fn find_delimiter_reports_first_index() {
    assert_eq!(find_delimiter(b"\r\n\r\n"), Some(0));
    assert_eq!(find_delimiter(b"ab\r\n\r\ncd\r\n\r\n"), Some(2));
    assert_eq!(find_delimiter(b"\r\r\n\r\n"), Some(1));
    assert_eq!(find_delimiter(b"abc"), None);
    assert_eq!(find_delimiter(b"\r\n\r"), None);
}

#[test]
fn segment_payload_is_what_follows_the_header() {
    assert_eq!(segment_payload(b"H\r\n\r\n0123"), Ok(b"0123".to_vec()));
    assert_eq!(segment_payload(b"H\r\n0123"), Err(FetchError::FramingError));
}
