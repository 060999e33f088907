use segmented_fetch::decimal::decimal_string;
use segmented_fetch::frame::find_delimiter;
use segmented_fetch::request::ConnectionTarget;

fn local() -> ConnectionTarget {
    ConnectionTarget { host: "127.0.0.1".to_string(), port: 8080 }
}

#[test]
fn address_joins_host_and_port() {
    assert_eq!(local().address(), "127.0.0.1:8080");
    assert_eq!(ConnectionTarget { host: "example.org".to_string(), port: 0 }.address(), "example.org:0");
    assert_eq!(ConnectionTarget { host: "h".to_string(), port: 65535 }.address(), "h:65535");
}

#[test]
fn metadata_request_text() {
    assert_eq!(
        local().metadata_request(),
        "GET /info HTTP/1.1\r\nHost: 127.0.0.1\r\nConnection: close\r\n\r\n"
    );
}

#[test]
fn data_request_text() {
    assert_eq!(local().data_request(), "GET / HTTP/1.1\r\nHost: 127.0.0.1\r\nConnection: close\r\n\r\n");
}

#[test]
fn range_request_text() {
    assert_eq!(
        local().range_request(0, 65536),
        "GET / HTTP/1.1\r\nHost: 127.0.0.1\r\nRange: bytes=0-65536\r\nConnection: close\r\n\r\n"
    );
    assert_eq!(
        local().range_request(8, 12),
        "GET / HTTP/1.1\r\nHost: 127.0.0.1\r\nRange: bytes=8-12\r\nConnection: close\r\n\r\n"
    );
}

#[test]
fn requests_end_with_the_blank_line() {
    let text = local().range_request(4, 8);
    assert_eq!(find_delimiter(text.as_bytes()), Some(text.len() - 4));
}

#[test]
fn decimal_string_values() {
    assert_eq!(decimal_string(0), "0");
    assert_eq!(decimal_string(9), "9");
    assert_eq!(decimal_string(10), "10");
    assert_eq!(decimal_string(65536), "65536");
    assert_eq!(decimal_string(usize::MAX), usize::MAX.to_string());
}
