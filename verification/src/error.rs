//! The error kinds this layer can deliver to either side of the body.

use vstd::prelude::*;

verus! {

/// What can go wrong while streaming a body.
///
/// Producer-side failures are never raised as panics: they are delivered as
/// the error variant of the next item the consumer observes, preserving
/// stream ordering.
#[derive(Clone, Copy, Debug, PartialEq, Eq, Structural)]
pub enum BodyError {
    /// A channel half was abandoned: the peer handle is gone.
    Closed,
    /// The producer aborted the body in an abnormal fashion.
    BodyWriteAborted,
    /// An opaque failure of the protocol-native receive stream, wrapped and
    /// passed through without inspection.
    Transport,
    /// A wrapped trailer/frame decoding failure at the protocol layer.
    ProtocolFrame,
}

impl BodyError {
    /// True exactly for the closed-stream error.
    pub fn is_closed(&self) -> (r: bool)
        ensures
            r == (*self is Closed),
    {
        match self {
            BodyError::Closed => true,
            _ => false,
        }
    }

    /// True exactly for the forced-abort error.
    pub fn is_body_write_aborted(&self) -> (r: bool)
        ensures
            r == (*self is BodyWriteAborted),
    {
        match self {
            BodyError::BodyWriteAborted => true,
            _ => false,
        }
    }
}

} // verus!
