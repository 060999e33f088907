use segmented_fetch::digest::{digest, verified_payload};
use segmented_fetch::error::FetchError;
use segmented_fetch::metadata::resolve;
use segmented_fetch::strategy::FramingStrategy;
use segmented_fetch::stream::{stream_step, ReadEvent, StreamAction, StreamFetch, StreamPhase};

#[test]
fn stream_returns_exactly_the_advertised_length() {
    let mut state = StreamFetch::new(10);
    assert_eq!(stream_step(&mut state, ReadEvent::Data(b"HTTP/1.1 200 OK\r\n".to_vec())), StreamAction::Read);
    assert_eq!(state.phase, StreamPhase::Header);
    assert_eq!(stream_step(&mut state, ReadEvent::Data(b"\r\n".to_vec())), StreamAction::Read);
    assert_eq!(state.phase, StreamPhase::Payload);
    assert_eq!(state.header, b"HTTP/1.1 200 OK\r\n\r\n".to_vec());
    assert_eq!(stream_step(&mut state, ReadEvent::Data(b"01234".to_vec())), StreamAction::Read);
    assert_eq!(stream_step(&mut state, ReadEvent::Data(b"56789".to_vec())), StreamAction::Complete);
    assert_eq!(state.payload, b"0123456789".to_vec());
}

#[test]
fn payload_bytes_read_with_the_header_are_kept() {
    let mut state = StreamFetch::new(10);
    assert_eq!(
        stream_step(&mut state, ReadEvent::Data(b"HTTP/1.1 200 OK\r\n\r\n0123".to_vec())),
        StreamAction::Read
    );
    assert_eq!(state.header, b"HTTP/1.1 200 OK\r\n\r\n".to_vec());
    assert_eq!(state.payload, b"0123".to_vec());
    assert_eq!(stream_step(&mut state, ReadEvent::Data(b"456789".to_vec())), StreamAction::Complete);
    assert_eq!(state.payload, b"0123456789".to_vec());
}

#[test]
fn whole_response_in_one_read_completes() {
    let mut state = StreamFetch::new(3);
    assert_eq!(stream_step(&mut state, ReadEvent::Data(b"H\r\n\r\nabc".to_vec())), StreamAction::Complete);
    assert_eq!(state.payload, b"abc".to_vec());
}

#[test]
fn bytes_beyond_the_advertised_length_are_dropped() {
    let mut state = StreamFetch::new(3);
    assert_eq!(stream_step(&mut state, ReadEvent::Data(b"H\r\n\r\na".to_vec())), StreamAction::Read);
    assert_eq!(stream_step(&mut state, ReadEvent::Data(b"bcdef".to_vec())), StreamAction::Complete);
    assert_eq!(state.payload, b"abc".to_vec());
}

#[test]
fn zero_length_completes_with_the_header() {
    let mut state = StreamFetch::new(0);
    assert_eq!(stream_step(&mut state, ReadEvent::Data(b"H\r\n\r\n".to_vec())), StreamAction::Complete);
    assert!(state.payload.is_empty());
}

#[test]
fn idle_after_short_payload_is_partial_success() {
    let mut state = StreamFetch::new(10);
    assert_eq!(stream_step(&mut state, ReadEvent::Data(b"H\r\n\r\n0123".to_vec())), StreamAction::Read);
    assert_eq!(stream_step(&mut state, ReadEvent::Idle), StreamAction::Complete);
    assert_eq!(state.payload, b"0123".to_vec());
}

#[test]
fn would_block_is_a_timeout() {
    let mut state = StreamFetch::new(10);
    assert_eq!(stream_step(&mut state, ReadEvent::Data(b"H\r\n\r\n0123".to_vec())), StreamAction::Read);
    assert_eq!(stream_step(&mut state, ReadEvent::WouldBlock), StreamAction::Fail(FetchError::TimeoutError));
    assert_eq!(state.payload, b"0123".to_vec());
    let mut fresh = StreamFetch::new(10);
    assert_eq!(stream_step(&mut fresh, ReadEvent::WouldBlock), StreamAction::Fail(FetchError::TimeoutError));
}

#[test]
fn failed_read_is_a_connection_error() {
    let mut state = StreamFetch::new(10);
    assert_eq!(stream_step(&mut state, ReadEvent::Failed), StreamAction::Fail(FetchError::ConnectionError));
    assert_eq!(stream_step(&mut state, ReadEvent::Data(b"H\r\n\r\n".to_vec())), StreamAction::Read);
    assert_eq!(stream_step(&mut state, ReadEvent::Failed), StreamAction::Fail(FetchError::ConnectionError));
}

#[test]
fn end_of_stream_inside_the_header_is_a_framing_error() {
    let mut state = StreamFetch::new(10);
    assert_eq!(stream_step(&mut state, ReadEvent::Idle), StreamAction::Fail(FetchError::FramingError));
    assert_eq!(stream_step(&mut state, ReadEvent::Data(b"HTTP/1.1 200 OK\r\n".to_vec())), StreamAction::Read);
    assert_eq!(stream_step(&mut state, ReadEvent::Idle), StreamAction::Fail(FetchError::FramingError));
}

#[test]
fn delimiter_split_across_reads_is_found() {
    let mut state = StreamFetch::new(2);
    assert_eq!(stream_step(&mut state, ReadEvent::Data(b"H\r\n\r".to_vec())), StreamAction::Read);
    assert_eq!(state.phase, StreamPhase::Header);
    assert_eq!(stream_step(&mut state, ReadEvent::Data(b"\nxy".to_vec())), StreamAction::Complete);
    assert_eq!(state.header, b"H\r\n\r\n".to_vec());
    assert_eq!(state.payload, b"xy".to_vec());
}

#[test]
fn metadata_then_ten_bytes_succeeds() {
    let payload = b"abcdefghij";
    let info = format!(
        "HTTP/1.1 200 OK\r\n\r\n{{\"length\": 10, \"sha256\": \"{}\"}}",
        digest(payload)
    );
    let metadata = resolve(info.as_bytes(), FramingStrategy::LengthStreaming).unwrap();
    let mut state = StreamFetch::new(metadata.expected_length.unwrap());
    let mut wire = b"HTTP/1.1 200 OK\r\nConnection: close\r\n\r\n".to_vec();
    wire.extend_from_slice(payload);
    let mut action = StreamAction::Read;
    for piece in wire.chunks(7) {
        assert_eq!(action, StreamAction::Read);
        action = stream_step(&mut state, ReadEvent::Data(piece.to_vec()));
    }
    assert_eq!(action, StreamAction::Complete);
    let fetched = verified_payload(state.payload, &metadata.expected_digest).unwrap();
    assert_eq!(fetched.len(), 10);
    assert_eq!(fetched, payload.to_vec());
}

#[test]
fn short_payload_fails_verification_afterwards() {
    let expected = digest(b"abcdefghij");
    let mut state = StreamFetch::new(10);
    assert_eq!(stream_step(&mut state, ReadEvent::Data(b"H\r\n\r\nabc".to_vec())), StreamAction::Read);
    assert_eq!(stream_step(&mut state, ReadEvent::Idle), StreamAction::Complete);
    assert_eq!(verified_payload(state.payload, &expected), Err(FetchError::DigestMismatch));
}
