//! Verified core of two audio codec adapters.
//!
//! The crate bridges the MPEG-4 `AudioSpecificConfig` container description
//! and the ADTS transport framing with the interface of an external decoding
//! engine.  It holds a bit-exact parser for the configuration bitstream, an
//! ADTS header synthesizer, a planar output buffer with interleave and trim
//! handling, and the reconciliation state machines of the AAC and Opus
//! decoder adapters.

use vstd::prelude::*;

pub mod aac;
pub mod adts;
pub mod bits;
pub mod buffer;
pub mod meta;
pub mod opus;

verus! {

/// The error taxonomy of the adapters.
///
/// `ConfigParseError` and `UnsupportedConfiguration` are fatal to stream
/// setup.  `TransportSyncError` is recoverable: the adapter absorbs it and
/// hands back an empty frame.  `EngineFatalError` and `ResourceExhaustion`
/// are per-packet fatal and propagate to the caller.
#[derive(Clone, Copy, Debug, PartialEq, Eq, Structural)]
pub enum AdapterError {
    /// The `AudioSpecificConfig` blob is malformed or truncated.
    ConfigParseError,
    /// The channel count is outside 1..=2, or a required value is missing.
    UnsupportedConfiguration,
    /// The engine rejected a frame as out of sync; decoding may continue.
    TransportSyncError,
    /// Any other engine failure.
    EngineFatalError,
    /// The engine could not allocate memory.
    ResourceExhaustion,
}

} // verus!
