//! Separation of one raw response into its header and its payload.
//!
//! The boundary is the first occurrence of the four bytes CR LF CR LF. The
//! header keeps the delimiter, so that header followed by payload is the raw
//! response again.

use vstd::prelude::*;
use vstd::slice::slice_subrange;
use crate::error::FetchError;

verus! {

/// The blank line that ends the header: CR LF CR LF.
pub open spec fn delimiter() -> Seq<u8> {
    seq![13u8, 10u8, 13u8, 10u8]
}

/// The delimiter stands in `raw` at index `i`.
pub open spec fn delimiter_at(raw: Seq<u8>, i: int) -> bool {
    &&& 0 <= i
    &&& i + 4 <= raw.len()
    &&& raw[i] == 13u8
    &&& raw[i + 1] == 10u8
    &&& raw[i + 2] == 13u8
    &&& raw[i + 3] == 10u8
}

/// The delimiter occurs somewhere in `raw`.
pub open spec fn has_delimiter(raw: Seq<u8>) -> bool {
    exists|i: int| delimiter_at(raw, i)
}

/// `i` is where the first delimiter of `raw` begins.
pub open spec fn is_split_point(raw: Seq<u8>, i: int) -> bool {
    &&& delimiter_at(raw, i)
    &&& forall|j: int| 0 <= j < i ==> !delimiter_at(raw, j)
}

/// Where the first delimiter of `raw` begins (meaningful when there is one).
pub open spec fn split_point(raw: Seq<u8>) -> int {
    choose|i: int| is_split_point(raw, i)
}

/// Everything up to and including the first delimiter.
pub open spec fn header_of(raw: Seq<u8>) -> Seq<u8> {
    raw.subrange(0, split_point(raw) + 4)
}

/// Everything after the first delimiter.
pub open spec fn payload_of(raw: Seq<u8>) -> Seq<u8> {
    raw.subrange(split_point(raw) + 4, raw.len() as int)
}

/// Header and payload of `raw`, or `None` when `raw` holds no delimiter.
pub open spec fn split_spec(raw: Seq<u8>) -> Option<(Seq<u8>, Seq<u8>)> {
    if has_delimiter(raw) {
        Some((header_of(raw), payload_of(raw)))
    } else {
        None
    }
}

/// One response, cut at the end of its first blank line.
#[derive(Debug, Clone, PartialEq, Eq)]
pub struct RawResponse {
    /// Status line and header fields, with the closing delimiter.
    pub header_bytes: Vec<u8>,
    /// What follows the delimiter.
    pub payload_bytes: Vec<u8>,
}

impl RawResponse {
    /// Header and payload as a pair of byte sequences.
    pub open spec fn view(&self) -> (Seq<u8>, Seq<u8>) {
        (self.header_bytes@, self.payload_bytes@)
    }

    /// This response is the split of `raw`: the two parts join to `raw` and
    /// the header ends with the first delimiter of `raw`.
    pub open spec fn is_split_of(&self, raw: Seq<u8>) -> bool {
        &&& self.header_bytes@ + self.payload_bytes@ == raw
        &&& is_split_point(raw, self.header_bytes@.len() - 4)
    }
}

/// A sequence has at most one first delimiter.
pub proof fn split_point_unique(raw: Seq<u8>, i: int, j: int)
    requires
        is_split_point(raw, i),
        is_split_point(raw, j),
    ensures
        i == j,
{
    if i < j {
        assert(!delimiter_at(raw, i));
    } else if j < i {
        assert(!delimiter_at(raw, j));
    }
}

/// A known first delimiter is the one that `split_point` names.
pub proof fn split_point_is(raw: Seq<u8>, i: int)
    requires
        is_split_point(raw, i),
    ensures
        has_delimiter(raw),
        split_point(raw) == i,
        split_spec(raw) == Some((raw.subrange(0, i + 4), raw.subrange(i + 4, raw.len() as int))),
{
    split_point_unique(raw, i, split_point(raw));
}

/// Finds where the first delimiter of `raw` begins.
pub fn find_delimiter(raw: &[u8]) -> (found: Option<usize>)
    ensures
        match found {
            Some(i) => is_split_point(raw@, i as int),
            None => !has_delimiter(raw@),
        },
{
    let n: usize = raw.len();
    if n < 4 {
        return None;
    }
    let last: usize = n - 4;
    let mut i: usize = 0;
    while i <= last
        invariant
            n == raw@.len(),
            n >= 4,
            last == n - 4,
            i <= last + 1,
            forall|j: int| 0 <= j < i ==> !delimiter_at(raw@, j),
        decreases last + 1 - i,
    {
        if raw[i] == 13u8 && raw[i + 1] == 10u8 && raw[i + 2] == 13u8 && raw[i + 3] == 10u8 {
            return Some(i);
        }
        i = i + 1;
    }
    None
}

/// Cuts `raw` after its first blank line.
///
/// Fails with `FramingError` exactly when `raw` holds no delimiter; a
/// response without one is never taken for an empty payload.
pub fn split(raw: &[u8]) -> (result: Result<RawResponse, FetchError>)
    ensures
        match result {
            Ok(response) => split_spec(raw@) == Some(response@) && response.is_split_of(raw@),
            Err(e) => e == FetchError::FramingError && split_spec(raw@).is_none(),
        },
        result.is_ok() <==> has_delimiter(raw@),
{
    match find_delimiter(raw) {
        None => Err(FetchError::FramingError),
        Some(at) => {
            let n: usize = raw.len();
            let cut: usize = at + 4;
            let mut header_bytes: Vec<u8> = Vec::new();
            let mut payload_bytes: Vec<u8> = Vec::new();
            header_bytes.extend_from_slice(slice_subrange(raw, 0, cut));
            payload_bytes.extend_from_slice(slice_subrange(raw, cut, n));
            proof {
                split_point_is(raw@, at as int);
                assert(header_bytes@ =~= raw@.subrange(0, cut as int));
                assert(payload_bytes@ =~= raw@.subrange(cut as int, raw@.len() as int));
                assert(header_bytes@ + payload_bytes@ =~= raw@);
            }
            Ok(RawResponse { header_bytes, payload_bytes })
        },
    }
}

/// The payload of one raw response: what follows its first blank line.
pub fn segment_payload(raw: &[u8]) -> (result: Result<Vec<u8>, FetchError>)
    ensures
        match result {
            Ok(payload) => has_delimiter(raw@) && payload@ == payload_of(raw@),
            Err(e) => e == FetchError::FramingError && !has_delimiter(raw@),
        },
{
    match split(raw) {
        Ok(response) => Ok(response.payload_bytes),
        Err(e) => Err(e),
    }
}

/// Splitting a header, the delimiter and a payload gives back the header
/// (closed by the delimiter) and the payload, provided that no delimiter
/// begins inside the header once the delimiter is appended to it.
pub proof fn split_round_trip(header: Seq<u8>, payload: Seq<u8>)
    requires
        forall|j: int| 0 <= j < header.len() ==> !delimiter_at(header + delimiter(), j),
    ensures
        split_spec(header + delimiter() + payload) == Some((header + delimiter(), payload)),
{
    let raw = header + delimiter() + payload;
    let at = header.len() as int;
    assert(delimiter_at(raw, at));
    assert forall|j: int| 0 <= j < at implies !delimiter_at(raw, j) by {
        if delimiter_at(raw, j) {
            assert(delimiter_at(header + delimiter(), j));
        }
    }
    split_point_is(raw, at);
    assert(raw.subrange(0, at + 4) =~= header + delimiter());
    assert(raw.subrange(at + 4, raw.len() as int) =~= payload);
}

/// Without a delimiter there is no split, whatever else the input holds.
pub proof fn split_needs_delimiter(raw: Seq<u8>)
    requires
        !has_delimiter(raw),
    ensures
        split_spec(raw).is_none(),
{
}

} // verus!
