//! The content digest of a payload and its comparison with an advertised one.
//!
//! The digest is SHA-256, computed by the `sha2` crate and written as
//! lowercase hexadecimal by the `hex` crate. What SHA-256 maps a payload to is
//! not spelled out here: it is named by [`sha256`], and every contract below
//! speaks of that name.

use vstd::prelude::*;
use sha2::{Digest, Sha256};
use crate::error::FetchError;

verus! {

/// The SHA-256 digest of `data`.
pub uninterp spec fn sha256(data: Seq<u8>) -> Seq<u8>;

/// The lowercase hexadecimal digit for a value below sixteen.
pub open spec fn hex_digit(nibble: int) -> char {
    if nibble < 10 {
        ((48 + nibble) as u8) as char
    } else {
        ((87 + nibble) as u8) as char
    }
}

/// `c` is one of `0`..`9`, `a`..`f`.
pub open spec fn is_lower_hex(c: char) -> bool {
    ('0' <= c && c <= '9') || ('a' <= c && c <= 'f')
}

/// Two lowercase hexadecimal digits per byte, the high half first.
pub open spec fn hex_encode(data: Seq<u8>) -> Seq<char> {
    Seq::new(
        2 * data.len(),
        |i: int|
            if i % 2 == 0 {
                hex_digit(data[i / 2] as int / 16)
            } else {
                hex_digit(data[i / 2] as int % 16)
            },
    )
}

/// The digest of `data` as text: sixty-four lowercase hexadecimal digits.
pub open spec fn digest_hex(data: Seq<u8>) -> Seq<char> {
    hex_encode(sha256(data))
}

/// `text` has the shape of a digest: sixty-four lowercase hexadecimal digits.
pub open spec fn is_digest_text(text: Seq<char>) -> bool {
    &&& text.len() == 64
    &&& forall|i: int| 0 <= i < text.len() ==> is_lower_hex(#[trigger] text[i])
}

/// What [`verify`] decides.
pub open spec fn verify_spec(payload: Seq<u8>, expected_digest_hex: Seq<char>) -> bool {
    digest_hex(payload) == expected_digest_hex
}

/// Calls `Sha256::new`, `update` and `finalize` of the `sha2` crate on `data`.
///
/// Trusted: the bytes returned are the SHA-256 digest of `data`, which is
/// thirty-two bytes long.
#[verifier::external_body]
fn sha256_bytes(data: &[u8]) -> (out: Vec<u8>)
    ensures
        out@ == sha256(data@),
        out@.len() == 32,
{
    let mut hasher = Sha256::new();
    hasher.update(data);
    hasher.finalize().to_vec()
}

/// Calls `hex::encode` on `bytes`.
///
/// Trusted: the text holds, for each byte in order, the lowercase
/// hexadecimal digit of its high half and then that of its low half.
#[verifier::external_body]
fn hex_text(bytes: &[u8]) -> (text: String)
    ensures
        text@ == hex_encode(bytes@),
{
    hex::encode(bytes)
}

/// The digest of `payload` as lowercase hexadecimal text.
pub fn digest(payload: &[u8]) -> (text: String)
    ensures
        text@ == digest_hex(payload@),
        is_digest_text(text@),
{
    let raw = sha256_bytes(payload);
    let text = hex_text(raw.as_slice());
    proof {
        hex_encode_is_lower_hex(raw@);
    }
    text
}

/// Whether the lowercase hexadecimal form of `digest_bytes` is exactly
/// `expected_digest_hex`.
pub fn digest_matches(digest_bytes: &[u8], expected_digest_hex: &String) -> (ok: bool)
    ensures
        ok == (hex_encode(digest_bytes@) == expected_digest_hex@),
{
    let text = hex_text(digest_bytes);
    text == *expected_digest_hex
}

/// Whether the digest of `payload` is exactly `expected_digest_hex`.
///
/// The comparison is plain text equality: an expected digest in upper case,
/// or of another length, never matches.
pub fn verify(payload: &[u8], expected_digest_hex: &String) -> (ok: bool)
    ensures
        ok == verify_spec(payload@, expected_digest_hex@),
        ok ==> is_digest_text(expected_digest_hex@),
{
    let raw = sha256_bytes(payload);
    proof {
        hex_encode_is_lower_hex(raw@);
    }
    digest_matches(raw.as_slice(), expected_digest_hex)
}

/// Hands `payload` on when its digest is `expected_digest_hex`, and reports
/// a `DigestMismatch` when it is not.
pub fn verified_payload(payload: Vec<u8>, expected_digest_hex: &String) -> (outcome: Result<
    Vec<u8>,
    FetchError,
>)
    ensures
        verify_spec(payload@, expected_digest_hex@) ==> outcome == Ok::<Vec<u8>, FetchError>(payload),
        !verify_spec(payload@, expected_digest_hex@) ==> outcome == Err::<Vec<u8>, FetchError>(
            FetchError::DigestMismatch,
        ),
{
    if verify(payload.as_slice(), expected_digest_hex) {
        Ok(payload)
    } else {
        Err(FetchError::DigestMismatch)
    }
}

/// Every character of a hexadecimal encoding is a lowercase hexadecimal
/// digit, and there are two of them per byte.
pub proof fn hex_encode_is_lower_hex(data: Seq<u8>)
    ensures
        hex_encode(data).len() == 2 * data.len(),
        forall|i: int| 0 <= i < hex_encode(data).len() ==> is_lower_hex(#[trigger] hex_encode(data)[i]),
{
    assert forall|i: int| 0 <= i < hex_encode(data).len() implies is_lower_hex(
        #[trigger] hex_encode(data)[i],
    ) by {
        let b = data[i / 2] as int;
        assert(0 <= b / 16 < 16 && 0 <= b % 16 < 16);
    }
}

/// Different byte sequences have different hexadecimal encodings.
pub proof fn hex_encode_injective(a: Seq<u8>, b: Seq<u8>)
    requires
        hex_encode(a) == hex_encode(b),
    ensures
        a == b,
{
    assert(hex_encode(a).len() == 2 * a.len());
    assert(hex_encode(b).len() == 2 * b.len());
    assert(a.len() == b.len());
    assert forall|k: int| 0 <= k < a.len() implies a[k] == b[k] by {
        let x = a[k] as int;
        let y = b[k] as int;
        assert(hex_encode(a)[2 * k] == hex_digit(x / 16));
        assert(hex_encode(b)[2 * k] == hex_digit(y / 16));
        assert(hex_encode(a)[2 * k + 1] == hex_digit(x % 16));
        assert(hex_encode(b)[2 * k + 1] == hex_digit(y % 16));
        assert(0 <= x / 16 < 16 && 0 <= x % 16 < 16);
        assert(0 <= y / 16 < 16 && 0 <= y % 16 < 16);
        assert(x / 16 == y / 16);
        assert(x % 16 == y % 16);
        assert(x == 16 * (x / 16) + x % 16);
        assert(y == 16 * (y / 16) + y % 16);
    }
    assert(a =~= b);
}

/// A payload always verifies against its own digest.
pub proof fn digest_verifies(payload: Seq<u8>)
    ensures
        verify_spec(payload, digest_hex(payload)),
{
}

/// A payload verifies against the digest of another exactly when the two
/// have the same SHA-256 digest.
pub proof fn verify_against_other(payload: Seq<u8>, other: Seq<u8>)
    ensures
        verify_spec(payload, digest_hex(other)) <==> sha256(payload) == sha256(other),
{
    if verify_spec(payload, digest_hex(other)) {
        hex_encode_injective(sha256(payload), sha256(other));
    }
}

} // verus!
