//! Ranged-segment polling: fixed-size ranges are requested one after another
//! until the digest of what has been gathered equals the advertised one.
//!
//! The caller owns the connection and the clock. It reports what happened as
//! a [`SegmentEvent`], together with the time that has passed since the fetch
//! began, and performs the [`SegmentAction`] that [`fetch_data`] returns.

use vstd::prelude::*;
use crate::digest::{verify, verify_spec};
use crate::error::FetchError;
use crate::frame::{has_delimiter, payload_of, segment_payload};

verus! {

/// Wall-clock time since the fetch began.
#[derive(Debug, Clone, Copy, PartialEq, Eq, Structural)]
pub struct Elapsed {
    /// Whole seconds.
    pub secs: u64,
    /// The part below one second, in nanoseconds.
    pub subsec_nanos: u32,
}

impl Elapsed {
    /// More than `timeout_secs` whole seconds have passed.
    pub open spec fn exceeds(&self, timeout_secs: u64) -> bool {
        self.secs > timeout_secs || (self.secs == timeout_secs && self.subsec_nanos > 0)
    }
}

/// What the caller observed since the previous step.
#[derive(Debug, Clone, PartialEq, Eq)]
pub enum SegmentEvent {
    /// Nothing yet: the fetch begins.
    Started,
    /// The raw response to the range last requested, header included.
    Received(Vec<u8>),
    /// Connecting, sending or reading failed.
    TransportFailed,
}

/// What the caller is to do next.
#[derive(Debug, Clone, Copy, PartialEq, Eq, Structural)]
pub enum SegmentAction {
    /// Open a new connection and request the bytes from `start` to `end`.
    Request { start: usize, end: usize },
    /// Stop: the gathered payload has the advertised digest.
    Complete,
    /// Stop: the fetch has failed.
    Fail(FetchError),
}

/// The state of one ranged fetch.
#[derive(Debug, Clone, PartialEq, Eq)]
pub struct RangedFetch {
    /// The advertised digest, as lowercase hexadecimal text.
    pub expected_digest: String,
    /// The number of bytes by which each request advances.
    pub segment_size: usize,
    /// The time budget of the whole fetch, in seconds.
    pub timeout_secs: u64,
    /// Where the next range begins.
    pub offset: usize,
    /// The payload gathered so far.
    pub body: Vec<u8>,
}

impl SegmentEvent {
    /// The error that this event ends the fetch with, if it does.
    pub open spec fn failure(&self) -> Option<FetchError> {
        match self {
            SegmentEvent::Started => None,
            SegmentEvent::Received(raw) => if has_delimiter(raw@) {
                None
            } else {
                Some(FetchError::FramingError)
            },
            SegmentEvent::TransportFailed => Some(FetchError::ConnectionError),
        }
    }

    /// The payload bytes that this event contributes.
    pub open spec fn contribution(&self) -> Seq<u8> {
        match self {
            SegmentEvent::Received(raw) => if has_delimiter(raw@) {
                payload_of(raw@)
            } else {
                Seq::<u8>::empty()
            },
            _ => Seq::<u8>::empty(),
        }
    }

    /// Whether this event moves the offset on by one segment.
    pub open spec fn advances(&self) -> bool {
        self is Received && self.failure().is_none()
    }
}

/// The body after the events have been taken in, one step of
/// [`fetch_data`] for each.
pub open spec fn body_after(body: Seq<u8>, events: Seq<SegmentEvent>) -> Seq<u8>
    decreases events.len(),
{
    if events.len() == 0 {
        body
    } else {
        body_after(body, events.drop_last()) + events.last().contribution()
    }
}

/// The offset after the events have been taken in, one step of
/// [`fetch_data`] for each.
pub open spec fn offset_after(offset: int, segment_size: int, events: Seq<SegmentEvent>) -> int
    decreases events.len(),
{
    if events.len() == 0 {
        offset
    } else {
        offset_after(offset, segment_size, events.drop_last()) + if events.last().advances() {
            segment_size
        } else {
            0
        }
    }
}

impl RangedFetch {
    /// The next two range bounds are representable.
    pub open spec fn in_range(&self) -> bool {
        self.offset + 2 * self.segment_size <= usize::MAX
    }

    /// The decision taken at the top of each round: stop with success on a
    /// matching digest, else stop with a timeout once the budget is spent,
    /// else request the next range.
    pub open spec fn decision(&self, elapsed: Elapsed) -> SegmentAction {
        if verify_spec(self.body@, self.expected_digest@) {
            SegmentAction::Complete
        } else if elapsed.exceeds(self.timeout_secs) {
            SegmentAction::Fail(FetchError::TimeoutError)
        } else {
            SegmentAction::Request {
                start: self.offset,
                end: (self.offset + self.segment_size) as usize,
            }
        }
    }

    /// A fetch that has gathered nothing and will begin at offset zero.
    pub fn new(expected_digest: String, segment_size: usize, timeout_secs: u64) -> (state: Self)
        ensures
            state.expected_digest == expected_digest,
            state.segment_size == segment_size,
            state.timeout_secs == timeout_secs,
            state.offset == 0,
            state.body@ == Seq::<u8>::empty(),
    {
        RangedFetch { expected_digest, segment_size, timeout_secs, offset: 0, body: Vec::new() }
    }

    /// Whether the time budget is spent.
    pub fn timed_out(&self, elapsed: Elapsed) -> (spent: bool)
        ensures
            spent == elapsed.exceeds(self.timeout_secs),
    {
        elapsed.secs > self.timeout_secs || (elapsed.secs == self.timeout_secs
            && elapsed.subsec_nanos > 0)
    }
}

/// One step of the ranged fetch.
///
/// A failed transport or a response without a blank line ends the fetch with
/// that error and leaves the state as it was. Otherwise the payload of a
/// received response is appended, the offset moves on by one segment, and
/// the decision for the next round is returned: `Complete` when the digest
/// of the gathered payload is the expected one, whatever the clock says;
/// else `TimeoutError` when the budget is spent; else the next range.
pub fn fetch_data(state: &mut RangedFetch, event: SegmentEvent, elapsed: Elapsed) -> (action:
    SegmentAction)
    requires
        old(state).in_range(),
    ensures
        final(state).expected_digest == old(state).expected_digest,
        final(state).segment_size == old(state).segment_size,
        final(state).timeout_secs == old(state).timeout_secs,
        final(state).body@ == old(state).body@ + event.contribution(),
        final(state).offset == if event.advances() {
            old(state).offset + old(state).segment_size
        } else {
            old(state).offset as int
        },
        action == match event.failure() {
            Some(e) => SegmentAction::Fail(e),
            None => final(state).decision(elapsed),
        },
{
    match event {
        SegmentEvent::Started => {
            assert(state.body@ + Seq::<u8>::empty() =~= state.body@);
        },
        SegmentEvent::TransportFailed => {
            assert(state.body@ + Seq::<u8>::empty() =~= state.body@);
            return SegmentAction::Fail(FetchError::ConnectionError);
        },
        SegmentEvent::Received(raw) => {
            match segment_payload(raw.as_slice()) {
                Err(e) => {
                    assert(state.body@ + Seq::<u8>::empty() =~= state.body@);
                    return SegmentAction::Fail(e);
                },
                Ok(payload) => {
                    state.body.extend_from_slice(payload.as_slice());
                    state.offset = state.offset + state.segment_size;
                },
            }
        },
    }
    if verify(state.body.as_slice(), &state.expected_digest) {
        SegmentAction::Complete
    } else if state.timed_out(elapsed) {
        SegmentAction::Fail(FetchError::TimeoutError)
    } else {
        SegmentAction::Request { start: state.offset, end: state.offset + state.segment_size }
    }
}

/// The body only ever grows at its end: what was gathered before a run of
/// events is still the front of what is gathered after it.
pub proof fn body_only_grows(body: Seq<u8>, events: Seq<SegmentEvent>)
    ensures
        body.len() <= body_after(body, events).len(),
        body_after(body, events).subrange(0, body.len() as int) == body,
    decreases events.len(),
{
    if events.len() == 0 {
        assert(body.subrange(0, body.len() as int) =~= body);
    } else {
        let before = body_after(body, events.drop_last());
        body_only_grows(body, events.drop_last());
        assert((before + events.last().contribution()).subrange(0, body.len() as int)
            =~= before.subrange(0, body.len() as int));
    }
}

/// Each well-framed response moves the offset on by one segment: after `k`
/// of them the next range begins `k` segments further on.
pub proof fn offset_counts_segments(offset: int, segment_size: int, events: Seq<SegmentEvent>)
    requires
        forall|i: int| 0 <= i < events.len() ==> (#[trigger] events[i]).advances(),
    ensures
        offset_after(offset, segment_size, events) == offset + events.len() * segment_size,
    decreases events.len(),
{
    if events.len() > 0 {
        let front = events.drop_last();
        assert forall|i: int| 0 <= i < front.len() implies (#[trigger] front[i]).advances() by {
            assert(front[i] == events[i]);
        }
        offset_counts_segments(offset, segment_size, front);
        assert(events.last() == events[events.len() - 1]);
        assert((events.len() - 1) * segment_size + segment_size == events.len() * segment_size)
            by (nonlinear_arith);
    }
}

/// A matching digest ends the fetch with success even when the budget is
/// spent.
pub proof fn matching_digest_completes(state: RangedFetch, elapsed: Elapsed)
    requires
        verify_spec(state.body@, state.expected_digest@),
    ensures
        state.decision(elapsed) == SegmentAction::Complete,
{
}

/// Without a matching digest, a spent budget ends the fetch with a timeout
/// and no further range is requested; within the budget the next range
/// begins at the current offset.
pub proof fn budget_bounds_polling(state: RangedFetch, elapsed: Elapsed)
    requires
        !verify_spec(state.body@, state.expected_digest@),
    ensures
        elapsed.exceeds(state.timeout_secs) ==> state.decision(elapsed) == SegmentAction::Fail(
            FetchError::TimeoutError,
        ),
        !elapsed.exceeds(state.timeout_secs) ==> state.decision(elapsed)
            == (SegmentAction::Request {
            start: state.offset,
            end: (state.offset + state.segment_size) as usize,
        }),
{
}

} // verus!
