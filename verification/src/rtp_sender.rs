//! The outbound half of a transceiver.
//!
//! The transceiver core only sequences calls to a sender; the sender's own
//! transport loop is outside this core.  A sender is therefore modeled by the
//! two observations the core makes of it: the track it currently carries and
//! whether it has been stopped.  Once stopped, every further operation fails.

use vstd::prelude::*;

use crate::error::Error;
use crate::track_local::TrackLocal;

verus! {

/// RTPSender sends media for one transceiver.
#[derive(Debug)]
pub struct RTPSender {
    /// The track this sender currently sends, if any.
    pub track: Option<TrackLocal>,
    /// Whether `stop` has completed on this sender; never cleared.
    pub stopped: bool,
}

impl RTPSender {
    /// Creates a running sender carrying the given track.
    pub fn new(track: Option<TrackLocal>) -> (r: RTPSender)
        ensures
            r.track == track,
            !r.stopped,
    {
        RTPSender { track, stopped: false }
    }

    /// Irreversibly stops the sender.  A second stop fails and changes
    /// nothing.
    pub fn stop(&mut self) -> (r: Result<(), Error>)
        ensures
            old(self).stopped ==> r == Err::<(), Error>(Error::ErrAlreadyStopped),
            old(self).stopped ==> *final(self) == *old(self),
            !old(self).stopped ==> r == Ok::<(), Error>(()),
            !old(self).stopped ==> final(self).stopped,
            !old(self).stopped ==> final(self).track == old(self).track,
    {
        if self.stopped {
            return Err(Error::ErrAlreadyStopped);
        }
        self.stopped = true;
        Ok(())
    }

    /// Replaces the track this sender sends; `None` detaches the current
    /// track.  Fails on a stopped sender and then changes nothing.
    pub fn replace_track(&mut self, track: Option<TrackLocal>) -> (r: Result<(), Error>)
        ensures
            old(self).stopped ==> r == Err::<(), Error>(Error::ErrAlreadyStopped),
            old(self).stopped ==> *final(self) == *old(self),
            !old(self).stopped ==> r == Ok::<(), Error>(()),
            !old(self).stopped ==> final(self).track == track,
            !old(self).stopped ==> !final(self).stopped,
    {
        if self.stopped {
            return Err(Error::ErrAlreadyStopped);
        }
        self.track = track;
        Ok(())
    }
}

} // verus!
