//! Segmented retrieval of a binary payload from an HTTP-speaking server.
//!
//! The crate holds the decisions of the fetch protocol: separating the
//! transport framing from the payload, reading the advertised digest and
//! length out of the metadata response, checking the payload's digest, and
//! the two state machines that drive ranged polling and length-framed
//! streaming. Opening connections, sending requests and reading the clock
//! are left to the caller, which feeds what it observed into the state
//! machines and performs the action that each step returns.

pub mod error;
pub mod decimal;
pub mod digest;
pub mod frame;
pub mod metadata;
pub mod ranged;
pub mod request;
pub mod strategy;
pub mod stream;
