//! Length-framed streaming: one response is read off one connection, first
//! up to the blank line that ends the header, then until the advertised
//! number of payload bytes has arrived.
//!
//! The caller owns the connection. It reports the outcome of each read as a
//! [`ReadEvent`] and performs the [`StreamAction`] that [`stream_step`]
//! returns. A read that ends without bytes and without a would-block report
//! is taken for the end of the payload; a read that reports would-block is a
//! timeout. The two are deliberately not treated alike.

use vstd::prelude::*;
use vstd::slice::slice_subrange;
use crate::error::FetchError;
use crate::frame::{find_delimiter, has_delimiter, header_of, payload_of, split_point_is};

verus! {

/// Which part of the response is being read.
#[derive(Debug, Clone, Copy, PartialEq, Eq, Structural)]
pub enum StreamPhase {
    /// The blank line has not been seen yet.
    Header,
    /// The header is complete; payload bytes are being gathered.
    Payload,
}

/// The outcome of one read on the connection.
#[derive(Debug, Clone, PartialEq, Eq)]
pub enum ReadEvent {
    /// The read delivered these bytes.
    Data(Vec<u8>),
    /// The read ended with no bytes and without reporting would-block: the
    /// peer closed the connection or went quiet.
    Idle,
    /// The read reported that it would block: nothing arrived in time.
    WouldBlock,
    /// The read failed in any other way.
    Failed,
}

/// What the caller is to do next.
#[derive(Debug, Clone, Copy, PartialEq, Eq, Structural)]
pub enum StreamAction {
    /// Read again from the same connection.
    Read,
    /// Stop: the payload gathered so far is the result.
    Complete,
    /// Stop: the fetch has failed.
    Fail(FetchError),
}

/// The state of one length-framed fetch.
#[derive(Debug, Clone, PartialEq, Eq)]
pub struct StreamFetch {
    /// The advertised length of the payload.
    pub expected_length: usize,
    /// The part of the response being read.
    pub phase: StreamPhase,
    /// The header bytes gathered so far; once complete, closed by the delimiter.
    pub header: Vec<u8>,
    /// The payload bytes gathered so far.
    pub payload: Vec<u8>,
}

/// At most the first `limit` items of `bytes`.
pub open spec fn clip(bytes: Seq<u8>, limit: int) -> Seq<u8> {
    if bytes.len() > limit {
        bytes.take(limit)
    } else {
        bytes
    }
}

impl StreamFetch {
    /// The payload never exceeds the advertised length, and is empty while
    /// the header is being read.
    pub open spec fn wf(&self) -> bool {
        &&& self.payload@.len() <= self.expected_length
        &&& self.phase is Header ==> self.payload@.len() == 0
    }

    /// `Complete` once the advertised length is reached, `Read` before.
    pub open spec fn progress(&self) -> StreamAction {
        if self.payload@.len() == self.expected_length {
            StreamAction::Complete
        } else {
            StreamAction::Read
        }
    }

    /// A fetch that has read nothing yet.
    pub fn new(expected_length: usize) -> (state: Self)
        ensures
            state.wf(),
            state.expected_length == expected_length,
            state.phase is Header,
            state.header@ == Seq::<u8>::empty(),
            state.payload@ == Seq::<u8>::empty(),
    {
        StreamFetch {
            expected_length,
            phase: StreamPhase::Header,
            header: Vec::new(),
            payload: Vec::new(),
        }
    }

    /// Appends `bytes` to the payload, as far as the advertised length allows.
    fn gather(&mut self, bytes: &[u8]) -> (action: StreamAction)
        requires
            old(self).payload@.len() <= old(self).expected_length,
        ensures
            final(self).expected_length == old(self).expected_length,
            final(self).phase == old(self).phase,
            final(self).header == old(self).header,
            final(self).payload@ == clip(old(self).payload@ + bytes@, old(self).expected_length as int),
            final(self).payload@.len() <= final(self).expected_length,
            action == final(self).progress(),
    {
        let room: usize = self.expected_length - self.payload.len();
        let taken: usize = if bytes.len() > room {
            room
        } else {
            bytes.len()
        };
        self.payload.extend_from_slice(slice_subrange(bytes, 0, taken));
        assert(self.payload@ =~= clip(old(self).payload@ + bytes@, old(self).expected_length as int));
        if self.payload.len() == self.expected_length {
            StreamAction::Complete
        } else {
            StreamAction::Read
        }
    }
}

/// One step of the length-framed fetch.
///
/// - Would-block is a `TimeoutError`, a failed read a `ConnectionError`; the
///   state stays as it was.
/// - A read that ends without bytes completes the fetch with what has been
///   gathered, however short, once the header is complete; before that it is
///   a `FramingError`.
/// - Bytes that arrive while the header is read extend it. When the blank
///   line is then in it, the header is cut after the blank line and what
///   follows begins the payload.
/// - Payload bytes are gathered up to the advertised length, at which the
///   fetch completes; bytes beyond it are dropped.
pub fn stream_step(state: &mut StreamFetch, event: ReadEvent) -> (action: StreamAction)
    requires
        old(state).wf(),
    ensures
        final(state).wf(),
        final(state).expected_length == old(state).expected_length,
        match event {
            ReadEvent::WouldBlock => *final(state) == *old(state) && action == StreamAction::Fail(
                FetchError::TimeoutError,
            ),
            ReadEvent::Failed => *final(state) == *old(state) && action == StreamAction::Fail(
                FetchError::ConnectionError,
            ),
            ReadEvent::Idle => *final(state) == *old(state) && action == (match old(state).phase {
                StreamPhase::Header => StreamAction::Fail(FetchError::FramingError),
                StreamPhase::Payload => StreamAction::Complete,
            }),
            ReadEvent::Data(bytes) => match old(state).phase {
                StreamPhase::Header => {
                    let seen = old(state).header@ + bytes@;
                    if has_delimiter(seen) {
                        &&& final(state).phase is Payload
                        &&& final(state).header@ == header_of(seen)
                        &&& final(state).payload@ == clip(
                            payload_of(seen),
                            old(state).expected_length as int,
                        )
                        &&& action == final(state).progress()
                    } else {
                        &&& final(state).phase is Header
                        &&& final(state).header@ == seen
                        &&& final(state).payload@ == old(state).payload@
                        &&& action == StreamAction::Read
                    }
                },
                StreamPhase::Payload => {
                    &&& final(state).phase is Payload
                    &&& final(state).header@ == old(state).header@
                    &&& final(state).payload@ == clip(
                        old(state).payload@ + bytes@,
                        old(state).expected_length as int,
                    )
                    &&& action == final(state).progress()
                },
            },
        },
{
    match event {
        ReadEvent::WouldBlock => StreamAction::Fail(FetchError::TimeoutError),
        ReadEvent::Failed => StreamAction::Fail(FetchError::ConnectionError),
        ReadEvent::Idle => match state.phase {
            StreamPhase::Header => StreamAction::Fail(FetchError::FramingError),
            StreamPhase::Payload => StreamAction::Complete,
        },
        ReadEvent::Data(bytes) => match state.phase {
            StreamPhase::Payload => state.gather(bytes.as_slice()),
            StreamPhase::Header => {
                state.header.extend_from_slice(bytes.as_slice());
                let ghost seen = state.header@;
                let found = find_delimiter(state.header.as_slice());
                assert(seen == old(state).header@ + bytes@);
                match found {
                    None => StreamAction::Read,
                    Some(at) => {
                        let total: usize = state.header.len();
                        let cut: usize = at + 4;
                        let mut rest: Vec<u8> = Vec::new();
                        rest.extend_from_slice(slice_subrange(state.header.as_slice(), cut, total));
                        state.header.truncate(cut);
                        state.phase = StreamPhase::Payload;
                        proof {
                            split_point_is(seen, at as int);
                            assert(state.header@ =~= header_of(seen));
                            assert(rest@ =~= payload_of(seen));
                            assert(state.payload@ + rest@ =~= rest@);
                        }
                        state.gather(rest.as_slice())
                    },
                }
            },
        },
    }
}

} // verus!
