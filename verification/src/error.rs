//! The ways in which a fetch cycle can end without a payload.

use vstd::prelude::*;

verus! {

/// Classification of a failed fetch.
#[derive(Debug, Clone, Copy, PartialEq, Eq, Structural)]
pub enum FetchError {
    /// Connecting, sending or reading failed at the transport layer.
    ConnectionError,
    /// The metadata response is not valid UTF-8 text.
    DecodeError,
    /// A required field is absent from the metadata response.
    MetadataFormatError,
    /// A response holds no blank line between header and payload.
    FramingError,
    /// The overall time budget, or a single read, ran out.
    TimeoutError,
    /// The payload arrived in full but its digest differs from the advertised one.
    DigestMismatch,
}

impl FetchError {
    /// A short description for operators.
    pub fn message(&self) -> (text: &'static str)
        ensures
            text@ == self.message_text(),
    {
        match self {
            FetchError::ConnectionError => "connection failed",
            FetchError::DecodeError => "response is not valid text",
            FetchError::MetadataFormatError => "metadata field not found",
            FetchError::FramingError => "no blank line found in response",
            FetchError::TimeoutError => "timeout exceeded",
            FetchError::DigestMismatch => "digest does not match",
        }
    }

    /// The text that [`FetchError::message`] returns.
    pub open spec fn message_text(&self) -> Seq<char> {
        match self {
            FetchError::ConnectionError => "connection failed"@,
            FetchError::DecodeError => "response is not valid text"@,
            FetchError::MetadataFormatError => "metadata field not found"@,
            FetchError::FramingError => "no blank line found in response"@,
            FetchError::TimeoutError => "timeout exceeded"@,
            FetchError::DigestMismatch => "digest does not match"@,
        }
    }
}

} // verus!
