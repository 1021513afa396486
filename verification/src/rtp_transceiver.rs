//! RTPTransceiver and the pool matching algorithms of session negotiation.
//!
//! A transceiver owns at most one sender and one receiver under a shared mid
//! and a negotiated direction.  All mutation goes through `&mut self`: the
//! surrounding session driver serializes mutating calls per transceiver (one
//! negotiation round at a time), so no field needs its own synchronization
//! and a reader always observes a defined direction value.

use vstd::prelude::*;

use std::sync::Arc;

use crate::error::Error;
use crate::media_engine::{spec_codecs_by_kind, MediaEngine};
use crate::rtp_codec::{
    all_supported, codec_parameters_fuzzy_search, resolved_codecs, CodecMatch, RTPCodecParameters,
    RTPCodecType,
};
use crate::rtp_receiver::RTPReceiver;
use crate::rtp_sender::RTPSender;
use crate::rtp_transceiver_direction::{
    next_direction, preferred_directions, spec_preferred_directions, RTPTransceiverDirection,
};
use crate::scan::{first_from, first_index};
use crate::track_local::TrackLocal;

verus! {

/// RTPTransceiver represents a combination of an RTPSender and an RTPReceiver
/// that share a common mid.
#[derive(Debug)]
pub struct RTPTransceiver {
    /// Media identifier binding this transceiver to a media line; the empty
    /// string means unassigned, and a non-empty mid never changes.
    pub mid: String,
    /// The outbound half, at most one.
    pub sender: Option<RTPSender>,
    /// The inbound half, at most one.
    pub receiver: Option<RTPReceiver>,
    /// Negotiated direction; changes only through the transition table or
    /// `stop`.
    pub direction: RTPTransceiverDirection,
    /// Caller-preferred codecs in preference order; empty defers entirely to
    /// the catalog's order.
    pub codecs: Vec<RTPCodecParameters>,
    /// Marks a transceiver the session has retired; set once by the session
    /// driver and never cleared.
    pub stopped: bool,
    /// Media kind, immutable after construction.
    pub kind: RTPCodecType,
    /// The engine-wide codec catalog this transceiver negotiates against.
    pub media_engine: Arc<MediaEngine>,
}

/// The catalog list this transceiver's codecs are matched against.
pub open spec fn catalog_of(t: RTPTransceiver) -> Seq<RTPCodecParameters> {
    spec_codecs_by_kind(*t.media_engine, t.kind)
}

/// What `get_codecs` returns: the full catalog when no preference is stored,
/// otherwise each stored preference re-resolved against the catalog.
pub open spec fn spec_get_codecs(t: RTPTransceiver) -> Seq<RTPCodecParameters> {
    if t.codecs@.len() == 0 {
        catalog_of(t)
    } else {
        resolved_codecs(t.codecs@, catalog_of(t))
    }
}

/// The transceiver with its mid replaced.
pub open spec fn with_mid(t: RTPTransceiver, mid: String) -> RTPTransceiver {
    RTPTransceiver { mid, ..t }
}

/// The transceiver with its direction replaced.
pub open spec fn with_direction(
    t: RTPTransceiver,
    direction: RTPTransceiverDirection,
) -> RTPTransceiver {
    RTPTransceiver { direction, ..t }
}

/// The transceiver with its sender slot replaced.
pub open spec fn with_sender(t: RTPTransceiver, sender: Option<RTPSender>) -> RTPTransceiver {
    RTPTransceiver { sender, ..t }
}

/// The transceiver with its codec preference list replaced.
pub open spec fn with_codecs(t: RTPTransceiver, codecs: Vec<RTPCodecParameters>) -> RTPTransceiver {
    RTPTransceiver { codecs, ..t }
}

/// The sender slot after a track change: a provided track is handed to the
/// present sender, and dropping the track drops the sender with it.
pub open spec fn sender_after_track(
    sender: Option<RTPSender>,
    track: Option<TrackLocal>,
) -> Option<RTPSender> {
    match track {
        Some(tr) => match sender {
            Some(snd) => Some(RTPSender { track: Some(tr), ..snd }),
            None => None,
        },
        None => None,
    }
}

/// The sender slot after a successful stop request.
pub open spec fn stopped_sender(sender: Option<RTPSender>) -> Option<RTPSender> {
    match sender {
        Some(snd) => Some(RTPSender { stopped: true, ..snd }),
        None => None,
    }
}

/// The receiver slot after a successful stop request.
pub open spec fn stopped_receiver(receiver: Option<RTPReceiver>) -> Option<RTPReceiver> {
    match receiver {
        Some(_) => Some(RTPReceiver { stopped: true }),
        None => None,
    }
}

/// Everything `set_sending_track` does.  A stopped sender rejects the track
/// change and nothing moves.  Otherwise the sender slot is updated first;
/// then the direction follows the transition table, and a combination
/// outside the table is an invalid-state error that leaves the direction
/// (but not the already-updated sender slot) unchanged.
pub open spec fn set_sending_track_post(
    pre: RTPTransceiver,
    track: Option<TrackLocal>,
    post: RTPTransceiver,
    r: Result<(), Error>,
) -> bool {
    if pre.sender matches Some(s) && s.stopped {
        r == Err::<(), Error>(Error::ErrAlreadyStopped) && post == pre
    } else {
        let mid_state = with_sender(pre, sender_after_track(pre.sender, track));
        match next_direction(pre.direction, track is Some) {
            Some(d) => r == Ok::<(), Error>(()) && post == with_direction(mid_state, d),
            None => r == Err::<(), Error>(Error::ErrRTPTransceiverSetSendingInvalidState) && post
                == mid_state,
        }
    }
}

/// Everything `stop` does.  The sender is asked to stop first; its failure
/// short-circuits before the receiver is touched.  A receiver failure leaves
/// the sender already stopped.  Only full success forces the direction to
/// `Inactive`.
pub open spec fn stop_post(
    pre: RTPTransceiver,
    post: RTPTransceiver,
    r: Result<(), Error>,
) -> bool {
    if pre.sender matches Some(s) && s.stopped {
        r == Err::<(), Error>(Error::ErrAlreadyStopped) && post == pre
    } else if pre.receiver matches Some(rc) && rc.stopped {
        r == Err::<(), Error>(Error::ErrAlreadyStopped) && post == with_sender(
            pre,
            stopped_sender(pre.sender),
        )
    } else {
        r == Ok::<(), Error>(()) && post == RTPTransceiver {
            sender: stopped_sender(pre.sender),
            receiver: stopped_receiver(pre.receiver),
            direction: RTPTransceiverDirection::Inactive,
            ..pre
        }
    }
}

impl RTPTransceiver {
    /// Constructs a transceiver with an unassigned mid and the given halves,
    /// direction, kind and codec preferences.
    pub fn new(
        receiver: Option<RTPReceiver>,
        sender: Option<RTPSender>,
        direction: RTPTransceiverDirection,
        kind: RTPCodecType,
        codecs: Vec<RTPCodecParameters>,
        media_engine: Arc<MediaEngine>,
    ) -> (r: RTPTransceiver)
        ensures
            r.mid@.len() == 0,
            r.sender == sender,
            r.receiver == receiver,
            r.direction == direction,
            r.codecs == codecs,
            !r.stopped,
            r.kind == kind,
            r.media_engine == media_engine,
    {
        RTPTransceiver {
            mid: String::new(),
            sender,
            receiver,
            direction,
            codecs,
            stopped: false,
            kind,
            media_engine,
        }
    }

    /// set_codec_preferences sets the preferred list of supported codecs.  An
    /// empty list resets to the catalog's default order.  Every candidate is
    /// validated eagerly against the catalog; one unsupported candidate
    /// rejects the whole call and leaves the stored list untouched, so a
    /// later `get_codecs` still returns the pre-call result.
    pub fn set_codec_preferences(&mut self, codecs: Vec<RTPCodecParameters>) -> (r: Result<
        (),
        Error,
    >)
        ensures
            all_supported(codecs@, catalog_of(*old(self))) ==> r == Ok::<(), Error>(()),
            all_supported(codecs@, catalog_of(*old(self))) ==> *final(self) == with_codecs(
                *old(self),
                codecs,
            ),
            !all_supported(codecs@, catalog_of(*old(self))) ==> r == Err::<(), Error>(
                Error::ErrRTPTransceiverCodecUnsupported,
            ),
            !all_supported(codecs@, catalog_of(*old(self))) ==> *final(self) == *old(self),
            r is Err ==> spec_get_codecs(*final(self)) == spec_get_codecs(*old(self)),
            codecs@.len() == 0 ==> r is Ok && spec_get_codecs(*final(self)) == catalog_of(
                *old(self),
            ),
    {
        let mut i: usize = 0;
        while i < codecs.len()
            invariant
                0 <= i <= codecs.len(),
                *self == *old(self),
                forall|j: int|
                    0 <= j < i ==> #[trigger] crate::rtp_codec::fuzzy_match_tier(
                        codecs@[j],
                        catalog_of(*old(self)),
                    ) != CodecMatch::NoMatch,
            decreases codecs.len() - i,
        {
            let media_engine_codecs = self.media_engine.get_codecs_by_kind(self.kind);
            let (_, match_type) = codec_parameters_fuzzy_search(&codecs[i], &media_engine_codecs);
            if match_type == CodecMatch::NoMatch {
                assert(crate::rtp_codec::fuzzy_match_tier(codecs@[i as int], catalog_of(*old(self)))
                    == CodecMatch::NoMatch);
                assert(!all_supported(codecs@, catalog_of(*old(self))));
                return Err(Error::ErrRTPTransceiverCodecUnsupported);
            }
            i = i + 1;
        }
        self.codecs = codecs;
        Ok(())
    }

    /// get_codecs returns the codecs this transceiver offers: the catalog's
    /// full per-kind list when no preference is stored, otherwise the stored
    /// preferences re-resolved against the current catalog, in preference
    /// order, each replaced by the catalog's canonical entry and dropped when
    /// it no longer matches.
    pub fn get_codecs(&self) -> (r: Vec<RTPCodecParameters>)
        ensures
            r@ == spec_get_codecs(*self),
    {
        let media_engine_codecs = self.media_engine.get_codecs_by_kind(self.kind);
        if self.codecs.is_empty() {
            return media_engine_codecs;
        }
        let mut filtered_codecs: Vec<RTPCodecParameters> = Vec::new();
        let mut i: usize = 0;
        while i < self.codecs.len()
            invariant
                0 <= i <= self.codecs.len(),
                media_engine_codecs@ == catalog_of(*self),
                filtered_codecs@ == resolved_codecs(
                    self.codecs@.subrange(0, i as int),
                    catalog_of(*self),
                ),
            decreases self.codecs.len() - i,
        {
            let (c, match_type) = codec_parameters_fuzzy_search(
                &self.codecs[i],
                &media_engine_codecs,
            );
            proof {
                assert(self.codecs@.subrange(0, i + 1).drop_last() =~= self.codecs@.subrange(
                    0,
                    i as int,
                ));
                assert(self.codecs@.subrange(0, i + 1).last() == self.codecs@[i as int]);
            }
            if match_type != CodecMatch::NoMatch {
                filtered_codecs.push(c.unwrap());
            }
            i = i + 1;
        }
        proof {
            assert(self.codecs@.subrange(0, self.codecs@.len() as int) =~= self.codecs@);
        }
        filtered_codecs
    }

    /// sender returns the RTPTransceiver's RTPSender if it has one.
    pub fn sender(&self) -> (r: Option<&RTPSender>)
        ensures
            r is Some <==> self.sender is Some,
            r matches Some(s) ==> *s == self.sender->0,
    {
        self.sender.as_ref()
    }

    /// set_sender sets the RTPSender and track of this transceiver: the
    /// sender slot is replaced first, then the track change is applied as in
    /// `set_sending_track`.
    pub fn set_sender(&mut self, sender: Option<RTPSender>, track: Option<TrackLocal>) -> (r:
        Result<(), Error>)
        ensures
            set_sending_track_post(with_sender(*old(self), sender), track, *final(self), r),
    {
        self.sender = sender;
        self.set_sending_track(track)
    }

    /// receiver returns the RTPTransceiver's RTPReceiver if it has one.
    pub fn receiver(&self) -> (r: Option<&RTPReceiver>)
        ensures
            r is Some <==> self.receiver is Some,
            r matches Some(rc) ==> *rc == self.receiver->0,
    {
        self.receiver.as_ref()
    }

    /// set_mid sets the RTPTransceiver's mid.  Assignment is one-shot: it
    /// succeeds exactly when the current mid is still empty, and a second
    /// assignment fails without mutating anything.
    pub fn set_mid(&mut self, mid: String) -> (r: Result<(), Error>)
        ensures
            old(self).mid@.len() == 0 ==> r == Ok::<(), Error>(()),
            old(self).mid@.len() == 0 ==> *final(self) == with_mid(*old(self), mid),
            old(self).mid@.len() != 0 ==> r == Err::<(), Error>(
                Error::ErrRTPTransceiverCannotChangeMid,
            ),
            old(self).mid@.len() != 0 ==> *final(self) == *old(self),
    {
        if !self.mid.as_str().is_empty() {
            return Err(Error::ErrRTPTransceiverCannotChangeMid);
        }
        self.mid = mid;
        Ok(())
    }

    /// mid gets the transceiver's mid value; empty while unassigned.
    pub fn mid(&self) -> (r: &str)
        ensures
            r@ == self.mid@,
    {
        self.mid.as_str()
    }

    /// kind returns the RTPTransceiver's media kind.
    pub fn kind(&self) -> (r: RTPCodecType)
        ensures
            r == self.kind,
    {
        self.kind
    }

    /// direction returns the RTPTransceiver's current direction.
    pub fn direction(&self) -> (r: RTPTransceiverDirection)
        ensures
            r == self.direction,
    {
        self.direction
    }

    /// Sets the direction outside the transition table; reserved to the
    /// negotiation driver applying offer/answer semantics.
    pub fn set_direction(&mut self, d: RTPTransceiverDirection)
        ensures
            *final(self) == with_direction(*old(self), d),
    {
        self.direction = d;
    }

    /// stop irreversibly stops the RTPTransceiver: sender first, then
    /// receiver, then the direction is forced to `Inactive`.  A failure
    /// mid-sequence propagates immediately and leaves the direction
    /// unchanged, though the sub-resources stopped so far stay stopped.
    pub fn stop(&mut self) -> (r: Result<(), Error>)
        ensures
            stop_post(*old(self), *final(self), r),
    {
        if let Some(sender) = &mut self.sender {
            match sender.stop() {
                Ok(()) => {},
                Err(e) => {
                    return Err(e);
                },
            }
        }
        if let Some(receiver) = &mut self.receiver {
            match receiver.stop() {
                Ok(()) => {},
                Err(e) => {
                    return Err(e);
                },
            }
        }
        self.direction = RTPTransceiverDirection::Inactive;
        Ok(())
    }

    /// set_sending_track attaches or detaches the sending track and moves
    /// the direction along the transition table; see
    /// [`set_sending_track_post`] for the exact effect.
    pub fn set_sending_track(&mut self, track: Option<TrackLocal>) -> (r: Result<(), Error>)
        ensures
            set_sending_track_post(*old(self), track, *final(self), r),
    {
        let track_is_none = track.is_none();
        if let Some(sender) = &mut self.sender {
            match sender.replace_track(track) {
                Ok(()) => {},
                Err(e) => {
                    return Err(e);
                },
            }
        }
        if track_is_none {
            self.sender = None;
        }
        let direction = self.direction;
        if !track_is_none && direction == RTPTransceiverDirection::Recvonly {
            self.direction = RTPTransceiverDirection::Sendrecv;
        } else if !track_is_none && direction == RTPTransceiverDirection::Inactive {
            self.direction = RTPTransceiverDirection::Sendonly;
        } else if track_is_none && direction == RTPTransceiverDirection::Sendrecv {
            self.direction = RTPTransceiverDirection::Recvonly;
        } else if !track_is_none && (direction == RTPTransceiverDirection::Sendonly || direction
            == RTPTransceiverDirection::Sendrecv) {
            // A sending transceiver keeps its direction when a track is
            // provided again: the track was already expected, for example
            // after a remote-initiated negotiation added it.
        } else if track_is_none && direction == RTPTransceiverDirection::Sendonly {
            self.direction = RTPTransceiverDirection::Inactive;
        } else {
            return Err(Error::ErrRTPTransceiverSetSendingInvalidState);
        }
        Ok(())
    }
}

/// The predicate a pool scan of `find_by_mid` applies: the entry's mid equals
/// the target exactly.
pub open spec fn mid_pred(mid: Seq<char>) -> spec_fn(Arc<RTPTransceiver>) -> bool {
    |t: Arc<RTPTransceiver>| t.mid@ == mid
}

/// The pool index `find_by_mid` removes: the earliest entry whose mid equals
/// the target.
pub open spec fn find_by_mid_index(mid: Seq<char>, pool: Seq<Arc<RTPTransceiver>>) -> Option<int> {
    first_index(pool, mid_pred(mid))
}

/// find_by_mid removes and returns the first transceiver of the pool whose
/// mid equals the target exactly (case-sensitive); the pool is unchanged
/// when no mid matches.
pub fn find_by_mid(mid: &str, local_transceivers: &mut Vec<Arc<RTPTransceiver>>) -> (r: Option<
    Arc<RTPTransceiver>,
>)
    ensures
        match find_by_mid_index(mid@, old(local_transceivers)@) {
            Some(i) => r == Some(old(local_transceivers)@[i]) && final(local_transceivers)@ == old(
                local_transceivers,
            )@.remove(i),
            None => r is None && *final(local_transceivers) == *old(local_transceivers),
        },
        r matches Some(t) ==> t.mid@ == mid@,
{
    let ghost p = mid_pred(mid@);
    let target: String = mid.to_owned();
    let mut i: usize = 0;
    while i < local_transceivers.len()
        invariant
            0 <= i <= local_transceivers.len(),
            target@ == mid@,
            *local_transceivers == *old(local_transceivers),
            first_from(local_transceivers@, p, 0) == first_from(
                local_transceivers@,
                p,
                i as int,
            ),
            p == mid_pred(mid@),
        decreases local_transceivers.len() - i,
    {
        let t = &local_transceivers[i];
        if t.mid == target {
            assert(p(local_transceivers@[i as int]));
            return Some(local_transceivers.remove(i));
        }
        assert(!p(local_transceivers@[i as int]));
        i = i + 1;
    }
    None
}

/// The predicate a pool scan of `satisfy_type_and_direction` applies: an
/// unassigned entry of the requested kind with exactly the tried direction.
pub open spec fn satisfy_pred(
    kind: RTPCodecType,
    direction: RTPTransceiverDirection,
) -> spec_fn(Arc<RTPTransceiver>) -> bool {
    |t: Arc<RTPTransceiver>| t.mid@.len() == 0 && t.kind == kind && t.direction == direction
}

/// The pool index chosen from one direction tier on: the earliest pool entry
/// matching the current tier, and only if no tier matches anything, `None`.
/// Direction preference dominates pool order.
pub open spec fn satisfy_index_from(
    kind: RTPCodecType,
    dirs: Seq<RTPTransceiverDirection>,
    pool: Seq<Arc<RTPTransceiver>>,
    ti: int,
) -> Option<int>
    decreases dirs.len() - ti,
{
    if ti < 0 || ti >= dirs.len() {
        None
    } else {
        match first_index(pool, satisfy_pred(kind, dirs[ti])) {
            Some(i) => Some(i),
            None => satisfy_index_from(kind, dirs, pool, ti + 1),
        }
    }
}

/// The pool index `satisfy_type_and_direction` removes for a remote offer.
pub open spec fn satisfy_index(
    kind: RTPCodecType,
    remote_direction: RTPTransceiverDirection,
    pool: Seq<Arc<RTPTransceiver>>,
) -> Option<int> {
    satisfy_index_from(kind, spec_preferred_directions(remote_direction), pool, 0)
}

/// satisfy_type_and_direction plucks from the pool the first transceiver able
/// to satisfy a remote media line that carries no mid yet: for each
/// acceptable local direction in preference order, the pool is scanned in
/// insertion order for an unassigned transceiver of the remote kind with
/// exactly that direction.  The match is removed and returned; `None` is
/// returned (and the pool left unchanged) when nothing matches, and the
/// caller then constructs a fresh inactive transceiver.
pub fn satisfy_type_and_direction(
    remote_kind: RTPCodecType,
    remote_direction: RTPTransceiverDirection,
    local_transceivers: &mut Vec<Arc<RTPTransceiver>>,
) -> (r: Option<Arc<RTPTransceiver>>)
    ensures
        match satisfy_index(remote_kind, remote_direction, old(local_transceivers)@) {
            Some(i) => r == Some(old(local_transceivers)@[i]) && final(local_transceivers)@ == old(
                local_transceivers,
            )@.remove(i),
            None => r is None && *final(local_transceivers) == *old(local_transceivers),
        },
        r matches Some(t) ==> t.mid@.len() == 0 && t.kind == remote_kind,
{
    let ghost dirs = spec_preferred_directions(remote_direction);
    let possible_directions = preferred_directions(remote_direction);
    let mut ti: usize = 0;
    while ti < possible_directions.len()
        invariant
            0 <= ti <= possible_directions.len(),
            possible_directions@ == dirs,
            dirs == spec_preferred_directions(remote_direction),
            *local_transceivers == *old(local_transceivers),
            satisfy_index_from(remote_kind, dirs, local_transceivers@, 0) == satisfy_index_from(
                remote_kind,
                dirs,
                local_transceivers@,
                ti as int,
            ),
        decreases possible_directions.len() - ti,
    {
        let possible_direction = possible_directions[ti];
        let ghost p = satisfy_pred(remote_kind, dirs[ti as int]);
        let mut i: usize = 0;
        while i < local_transceivers.len()
            invariant
                0 <= i <= local_transceivers.len(),
                0 <= ti < dirs.len(),
                possible_direction == dirs[ti as int],
                dirs == spec_preferred_directions(remote_direction),
                *local_transceivers == *old(local_transceivers),
                satisfy_index_from(remote_kind, dirs, local_transceivers@, 0)
                    == satisfy_index_from(remote_kind, dirs, local_transceivers@, ti as int),
                first_from(local_transceivers@, p, 0) == first_from(
                    local_transceivers@,
                    p,
                    i as int,
                ),
                p == satisfy_pred(remote_kind, dirs[ti as int]),
            decreases local_transceivers.len() - i,
        {
            let t = &local_transceivers[i];
            if t.mid.as_str().is_empty() && t.kind == remote_kind && possible_direction
                == t.direction {
                proof {
                    assert(p(local_transceivers@[i as int]));
                    assert(first_from(local_transceivers@, p, i as int) == Some(i as int));
                    assert(first_index(
                        local_transceivers@,
                        satisfy_pred(remote_kind, dirs[ti as int]),
                    ) == Some(i as int));
                    assert(satisfy_index_from(remote_kind, dirs, local_transceivers@, ti as int)
                        == Some(i as int));
                    assert(satisfy_index(remote_kind, remote_direction, local_transceivers@)
                        == Some(i as int));
                }
                return Some(local_transceivers.remove(i));
            }
            assert(!p(local_transceivers@[i as int]));
            i = i + 1;
        }
        ti = ti + 1;
    }
    None
}

/// Once a non-empty mid has been assigned, the transceiver counts as bound:
/// any further `set_mid` call fails by its contract and leaves the first
/// assignment in place, so a mid is assigned at most once.
pub proof fn lemma_mid_assigned_once(t: RTPTransceiver, first: String)
    requires
        t.mid@.len() == 0,
        first@.len() != 0,
    ensures
        with_mid(t, first).mid == first,
        with_mid(t, first).mid@.len() != 0,
{
}

/// Resetting the preference list to empty makes `get_codecs` return exactly
/// the catalog's full per-kind list, in catalog order.
pub proof fn lemma_empty_preferences_defer_to_catalog(t: RTPTransceiver, empty: Vec<
    RTPCodecParameters,
>)
    requires
        empty@.len() == 0,
    ensures
        all_supported(empty@, catalog_of(t)),
        spec_get_codecs(with_codecs(t, empty)) == catalog_of(t),
{
    assert(with_codecs(t, empty).codecs@.len() == 0);
    assert(catalog_of(with_codecs(t, empty)) == catalog_of(t));
}

} // verus!
