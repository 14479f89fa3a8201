//! Error kinds raised by the core.

use vstd::prelude::*;

verus! {

/// The error kinds the core returns to callers. Parse and lookup errors are
/// returned unchanged; transport-level failures are absorbed into the
/// aggregate state machine instead.
#[derive(Debug, Copy, Clone, PartialEq, Eq, Structural)]
pub enum Error {
    /// Codec mime type not recognized by the payloader dispatch.
    ErrNoPayloaderForCodec,
    /// A codec-preference entry is not backed by a registered codec for
    /// that media kind.
    ErrRTPTransceiverCodecUnsupported,
    /// Conversion from an internal candidate whose type is unspecified.
    ErrICECandidateTypeUnknown,
    /// Operation attempted after close().
    ErrConnectionClosed,
    /// Codec registration under an unspecified codec type.
    ErrUnknownType,
}

impl Error {
    /// Whether two errors are the same kind.
    pub fn equal(&self, other: &Error) -> (r: bool)
        ensures
            r == (*self == *other),
    {
        *self == *other
    }
}

} // verus!
