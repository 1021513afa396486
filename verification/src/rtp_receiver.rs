//! The inbound half of a transceiver.
//!
//! As with the sender, the transceiver core only sequences calls to a
//! receiver, so the receiver is modeled by the one observation the core makes
//! of it: whether it has been stopped.  Once stopped, a further stop fails.

use vstd::prelude::*;

use crate::error::Error;

verus! {

/// RTPReceiver receives media for one transceiver.
#[derive(Debug)]
pub struct RTPReceiver {
    /// Whether `stop` has completed on this receiver; never cleared.
    pub stopped: bool,
}

impl RTPReceiver {
    /// Creates a running receiver.
    pub fn new() -> (r: RTPReceiver)
        ensures
            !r.stopped,
    {
        RTPReceiver { stopped: false }
    }

    /// Irreversibly stops the receiver.  A second stop fails and changes
    /// nothing.
    pub fn stop(&mut self) -> (r: Result<(), Error>)
        ensures
            old(self).stopped ==> r == Err::<(), Error>(Error::ErrAlreadyStopped),
            old(self).stopped ==> *final(self) == *old(self),
            !old(self).stopped ==> r == Ok::<(), Error>(()),
            !old(self).stopped ==> final(self).stopped,
    {
        if self.stopped {
            return Err(Error::ErrAlreadyStopped);
        }
        self.stopped = true;
        Ok(())
    }
}

} // verus!
