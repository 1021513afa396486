//! Errors surfaced by the transceiver core.

use vstd::prelude::*;

verus! {

/// Every failure of this core is returned to the immediate caller; none is
/// fatal to the process.
#[derive(Clone, Copy, Debug, PartialEq, Eq, Structural)]
pub enum Error {
    /// A candidate codec handed to `set_codec_preferences` has no catalog
    /// match; the whole call is rejected and state is unchanged.
    ErrRTPTransceiverCodecUnsupported,
    /// `set_mid` was called on a transceiver whose mid is already assigned.
    ErrRTPTransceiverCannotChangeMid,
    /// `set_sending_track` was invoked with a track/direction combination
    /// outside the defined transition table.
    ErrRTPTransceiverSetSendingInvalidState,
    /// A sender or receiver was asked to stop or replace its track after it
    /// had already been stopped; propagated verbatim by the transceiver.
    ErrAlreadyStopped,
}

impl Error {
    /// A short description of the error, for callers that report failures.
    pub fn message(&self) -> (r: &'static str)
        ensures
            r@.len() > 0,
    {
        let r = match self {
            Error::ErrRTPTransceiverCodecUnsupported => "codec is not supported by the media engine",
            Error::ErrRTPTransceiverCannotChangeMid => "mid is already assigned and cannot change",
            Error::ErrRTPTransceiverSetSendingInvalidState => "invalid state transition for sending track",
            Error::ErrAlreadyStopped => "handle is already stopped",
        };
        proof {
            reveal_strlit("codec is not supported by the media engine");
            reveal_strlit("mid is already assigned and cannot change");
            reveal_strlit("invalid state transition for sending track");
            reveal_strlit("handle is already stopped");
        }
        r
    }
}

} // verus!
