//! The three ways of obtaining the payload.

use vstd::prelude::*;

verus! {

/// How the payload is framed on the wire, chosen when the client is set up.
#[derive(Debug, Clone, Copy, PartialEq, Eq, Structural)]
pub enum FramingStrategy {
    /// One response carries the whole payload; the length is not known.
    WholeBody,
    /// Fixed-size ranges are requested until the digest matches.
    RangedPolling,
    /// One response is read up to the advertised length.
    LengthStreaming,
}

impl FramingStrategy {
    /// Whether the metadata must carry a length for this strategy.
    pub open spec fn needs_length_spec(&self) -> bool {
        *self == FramingStrategy::LengthStreaming
    }

    /// Whether the metadata must carry a length for this strategy.
    #[verifier::when_used_as_spec(needs_length_spec)]
    pub fn needs_length(&self) -> (needed: bool)
        ensures
            needed == self.needs_length_spec(),
    {
        match self {
            FramingStrategy::LengthStreaming => true,
            _ => false,
        }
    }
}

} // verus!
