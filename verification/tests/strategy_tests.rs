use segmented_fetch::error::FetchError;
use segmented_fetch::strategy::FramingStrategy;

#[test]
fn only_streaming_needs_a_length() {
    assert!(!FramingStrategy::WholeBody.needs_length());
    assert!(!FramingStrategy::RangedPolling.needs_length());
    assert!(FramingStrategy::LengthStreaming.needs_length());
}

#[test]
fn every_error_has_its_own_message() {
    let all = [
        FetchError::ConnectionError,
        FetchError::DecodeError,
        FetchError::MetadataFormatError,
        FetchError::FramingError,
        FetchError::TimeoutError,
        FetchError::DigestMismatch,
    ];
    for (i, a) in all.iter().enumerate() {
        assert!(!a.message().is_empty());
        for b in all.iter().skip(i + 1) {
            assert_ne!(a.message(), b.message());
        }
    }
    assert_eq!(FetchError::TimeoutError.message(), "timeout exceeded");
}
