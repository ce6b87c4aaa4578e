//! Errors of the RaSTA layer.

use vstd::prelude::*;

verus! {

/// What can go wrong on a RaSTA connection. None of these is recovered
/// from locally: an operation that fails hands its error to the caller.
#[derive(Debug, Clone, Copy, PartialEq, Eq, Structural)]
pub enum RastaError {
    /// The peer confirmed a sequence number other than the last one sent.
    InvalidSeqNr,
    /// The operation is not allowed in the connection's current state.
    StateError,
    /// A read took longer than the RaSTA timeout.
    Timeout,
    /// The peer's connection response names another RaSTA version.
    VersionMismatch,
    /// A frame or telegram that is too short, whose length field does not
    /// fit, or that holds a value outside its field's closed set.
    Malformed,
    /// A frame whose message type code is none of the eight defined ones.
    UnknownMessageType(u16),
    /// The SCI receiver name has no RaSTA id in the session's mapping.
    MissingRastaId,
    /// The underlying stream failed.
    IOError,
}

impl RastaError {
    /// The error for a failed stream operation: a read that ran into its
    /// timeout is a [`RastaError::Timeout`], every other failure an
    /// [`RastaError::IOError`].
    pub fn from_io(timed_out: bool) -> (e: RastaError)
        ensures
            e == if timed_out {
                RastaError::Timeout
            } else {
                RastaError::IOError
            },
    {
        if timed_out {
            RastaError::Timeout
        } else {
            RastaError::IOError
        }
    }
}

} // verus!
