//! Reading the advertised digest and length out of the metadata response.
//!
//! The response is decoded as UTF-8 text and searched with two patterns, one
//! per field; no structured parser is involved. The search itself is done by
//! the `regex` crate. What it finds is named by [`regex_first_group`]; what
//! is made of a find is this module's own, and proved.

use vstd::prelude::*;
use vstd::utf8::{decode_utf8, valid_utf8};
use crate::decimal::{decimal_value, is_decimal, parse_decimal};
use crate::digest::{is_digest_text, is_lower_hex};
use crate::error::FetchError;
use crate::strategy::FramingStrategy;

verus! {

/// The error with which the `regex` crate refuses a pattern. It is carried
/// through unread.
#[verifier::external_type_specification]
#[verifier::external_body]
pub struct ExRegexError(regex::Error);

/// What the `regex` crate captures: `None` when `pattern` does not compile;
/// otherwise `Some(None)` when `pattern` matches nowhere in `text` or its
/// first group took no part in the match, and `Some(Some(s))` with the text
/// `s` of the first group in the leftmost match.
pub uninterp spec fn regex_first_group(pattern: Seq<char>, text: Seq<char>) -> Option<
    Option<Seq<char>>,
>;

/// The pattern that finds the digest field.
pub open spec fn digest_pattern() -> Seq<char> {
    "\"sha256\"\\s*:\\s*\"([0-9a-zA-Z]+)"@
}

/// The pattern that finds the length field.
pub open spec fn length_pattern() -> Seq<char> {
    "\"length\"\\s*:\\s*([0-9]+)"@
}

/// The outcome of a search as plain values.
pub open spec fn capture_view(capture: Result<Option<String>, regex::Error>) -> Option<
    Option<Seq<char>>,
> {
    match capture {
        Ok(Some(s)) => Some(Some(s@)),
        Ok(None) => Some(None),
        Err(_) => None,
    }
}

/// The digest that a search result yields: the captured text when it has the
/// shape of a digest, and a format error otherwise.
pub open spec fn digest_field(capture: Option<Option<Seq<char>>>) -> Result<Seq<char>, FetchError> {
    match capture {
        Some(Some(text)) => if is_digest_text(text) {
            Ok(text)
        } else {
            Err(FetchError::MetadataFormatError)
        },
        _ => Err(FetchError::MetadataFormatError),
    }
}

/// The length that a search result yields: the captured digits as a number
/// when they fit a `usize`, and a format error otherwise.
pub open spec fn length_field(capture: Option<Option<Seq<char>>>) -> Result<usize, FetchError> {
    match capture {
        Some(Some(text)) => if is_decimal(text) && decimal_value(text) <= usize::MAX {
            Ok(decimal_value(text) as usize)
        } else {
            Err(FetchError::MetadataFormatError)
        },
        _ => Err(FetchError::MetadataFormatError),
    }
}

/// What [`resolve`] returns for a raw response, as plain values.
pub open spec fn resolve_spec(raw: Seq<u8>, with_length: bool) -> Result<
    (Seq<char>, Option<usize>),
    FetchError,
> {
    if !valid_utf8(raw) {
        Err(FetchError::DecodeError)
    } else {
        let text = decode_utf8(raw);
        match digest_field(regex_first_group(digest_pattern(), text)) {
            Err(e) => Err(e),
            Ok(digest) => if with_length {
                match length_field(regex_first_group(length_pattern(), text)) {
                    Err(e) => Err(e),
                    Ok(length) => Ok((digest, Some(length))),
                }
            } else {
                Ok((digest, None))
            },
        }
    }
}

/// What the server advertises about the payload.
#[derive(Debug, Clone, PartialEq, Eq)]
pub struct FetchMetadata {
    /// The digest of the payload, as sixty-four lowercase hexadecimal digits.
    pub expected_digest: String,
    /// The length of the payload in bytes, where the strategy needs it.
    pub expected_length: Option<usize>,
}

impl FetchMetadata {
    /// Digest text and length.
    pub open spec fn view(&self) -> (Seq<char>, Option<usize>) {
        (self.expected_digest@, self.expected_length)
    }

    /// The digest has the shape of a digest.
    pub open spec fn wf(&self) -> bool {
        is_digest_text(self.expected_digest@)
    }
}

/// Calls `String::from_utf8` on a copy of `raw`.
///
/// Trusted: the call succeeds exactly on valid UTF-8, and the text then
/// holds the characters that the bytes encode.
#[verifier::external_body]
fn decode_text(raw: &[u8]) -> (decoded: Option<String>)
    ensures
        decoded.is_some() <==> valid_utf8(raw@),
        decoded.is_some() ==> decoded.unwrap()@ == decode_utf8(raw@),
{
    String::from_utf8(raw.to_vec()).ok()
}

/// Calls `Regex::new` on `pattern`, then `Regex::captures` on `text` and
/// `Captures::get(1)` on what was found, all of the `regex` crate.
///
/// Trusted: the outcome is the one that [`regex_first_group`] names for this
/// pattern and text; an error is returned exactly when the pattern does not
/// compile.
#[verifier::external_body]
fn first_group(pattern: &str, text: &str) -> (capture: Result<Option<String>, regex::Error>)
    ensures
        capture_view(capture) == regex_first_group(pattern@, text@),
{
    let compiled = regex::Regex::new(pattern)?;
    Ok(compiled.captures(text).and_then(|found| found.get(1)).map(|group| group.as_str().to_string()))
}

/// Whether `text` is sixty-four lowercase hexadecimal digits.
pub fn has_digest_shape(text: &str) -> (ok: bool)
    ensures
        ok == is_digest_text(text@),
{
    let n: usize = text.unicode_len();
    if n != 64 {
        return false;
    }
    let mut i: usize = 0;
    while i < n
        invariant
            n == text@.len(),
            i <= n,
            forall|j: int| 0 <= j < i ==> is_lower_hex(#[trigger] text@[j]),
        decreases n - i,
    {
        let c: char = text.get_char(i);
        if !((c >= '0' && c <= '9') || (c >= 'a' && c <= 'f')) {
            return false;
        }
        i = i + 1;
    }
    true
}

/// The digest that a search result yields.
pub fn digest_from_capture(capture: Result<Option<String>, regex::Error>) -> (result: Result<
    String,
    FetchError,
>)
    ensures
        match result {
            Ok(digest) => digest_field(capture_view(capture)) == Ok::<Seq<char>, FetchError>(digest@),
            Err(e) => digest_field(capture_view(capture)) == Err::<Seq<char>, FetchError>(e),
        },
{
    match capture {
        Ok(Some(text)) => {
            if has_digest_shape(text.as_str()) {
                Ok(text)
            } else {
                Err(FetchError::MetadataFormatError)
            }
        },
        _ => Err(FetchError::MetadataFormatError),
    }
}

/// The length that a search result yields.
pub fn length_from_capture(capture: Result<Option<String>, regex::Error>) -> (result: Result<
    usize,
    FetchError,
>)
    ensures
        result == length_field(capture_view(capture)),
{
    match capture {
        Ok(Some(text)) => {
            match parse_decimal(text.as_str()) {
                Some(length) => Ok(length),
                None => Err(FetchError::MetadataFormatError),
            }
        },
        _ => Err(FetchError::MetadataFormatError),
    }
}

/// Extracts the advertised digest, and for the length-framed strategy the
/// advertised length, from the raw metadata response.
///
/// Fails with `DecodeError` when the response is not valid UTF-8, and with
/// `MetadataFormatError` when a required field is not found or what was
/// found is no digest or no length.
pub fn resolve(raw: &[u8], strategy: FramingStrategy) -> (result: Result<FetchMetadata, FetchError>)
    ensures
        match result {
            Ok(metadata) => resolve_spec(raw@, strategy.needs_length()) == Ok::<
                (Seq<char>, Option<usize>),
                FetchError,
            >(metadata@) && metadata.wf(),
            Err(e) => resolve_spec(raw@, strategy.needs_length()) == Err::<
                (Seq<char>, Option<usize>),
                FetchError,
            >(e),
        },
        !valid_utf8(raw@) ==> result == Err::<FetchMetadata, FetchError>(FetchError::DecodeError),
        result.is_ok() ==> (result.unwrap().expected_length.is_some() <==> strategy.needs_length()),
{
    let text = match decode_text(raw) {
        Some(text) => text,
        None => { return Err(FetchError::DecodeError); },
    };
    let expected_digest = match digest_from_capture(
        first_group("\"sha256\"\\s*:\\s*\"([0-9a-zA-Z]+)", text.as_str()),
    ) {
        Ok(digest) => digest,
        Err(e) => { return Err(e); },
    };
    if strategy.needs_length() {
        match length_from_capture(first_group("\"length\"\\s*:\\s*([0-9]+)", text.as_str())) {
            Ok(length) => Ok(FetchMetadata { expected_digest, expected_length: Some(length) }),
            Err(e) => Err(e),
        }
    } else {
        Ok(FetchMetadata { expected_digest, expected_length: None })
    }
}

} // verus!
