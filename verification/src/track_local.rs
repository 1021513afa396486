//! A local media track handed to a sender.
//!
//! The core never looks inside a track; it only moves the handle into and out
//! of the sender and reacts to its presence, so the handle carries nothing
//! but its identifier.

use vstd::prelude::*;

verus! {

/// A handle to a locally produced media track.
#[derive(Debug)]
pub struct TrackLocal {
    /// Identifier of the track, chosen by the producer.
    pub id: String,
}

impl TrackLocal {
    /// Creates a track handle with the given identifier.
    pub fn new(id: String) -> (r: TrackLocal)
        ensures
            r.id == id,
    {
        TrackLocal { id }
    }
}

impl Clone for TrackLocal {
    fn clone(&self) -> (r: Self)
        ensures
            r == *self,
    {
        TrackLocal { id: self.id.clone() }
    }
}

} // verus!
