//! Direction of a transceiver and the rules that govern how it may change.

use vstd::prelude::*;

verus! {

/// RTPTransceiverDirection describes the allowed media flow of a transceiver.
#[derive(Clone, Copy, Debug, PartialEq, Eq, Structural)]
pub enum RTPTransceiverDirection {
    /// Media flows both ways.
    Sendrecv,
    /// Media is only sent.
    Sendonly,
    /// Media is only received.
    Recvonly,
    /// No media flows.
    Inactive,
}

/// The direction transition table driven by a track-presence change.
///
/// Attaching a track can only add a sending capability and removing one can
/// only remove it; `None` marks the combinations outside the table (adding a
/// track is always accepted, removing one from a state that never sent is a
/// caller bug surfaced as an error).
pub open spec fn next_direction(
    current: RTPTransceiverDirection,
    track_present: bool,
) -> Option<RTPTransceiverDirection> {
    match (current, track_present) {
        (RTPTransceiverDirection::Recvonly, true) => Some(RTPTransceiverDirection::Sendrecv),
        (RTPTransceiverDirection::Inactive, true) => Some(RTPTransceiverDirection::Sendonly),
        (RTPTransceiverDirection::Sendrecv, true) => Some(RTPTransceiverDirection::Sendrecv),
        (RTPTransceiverDirection::Sendonly, true) => Some(RTPTransceiverDirection::Sendonly),
        (RTPTransceiverDirection::Sendrecv, false) => Some(RTPTransceiverDirection::Recvonly),
        (RTPTransceiverDirection::Sendonly, false) => Some(RTPTransceiverDirection::Inactive),
        (RTPTransceiverDirection::Recvonly, false) => None,
        (RTPTransceiverDirection::Inactive, false) => None,
    }
}

/// The transition table holds exactly as tabulated, row by row: providing a
/// track turns `Recvonly` into `Sendrecv` and `Inactive` into `Sendonly` and
/// leaves a sending direction unchanged; removing the track turns `Sendrecv`
/// into `Recvonly` and `Sendonly` into `Inactive`; and removing a track from
/// a direction that never sent is the one rejected combination.
pub proof fn lemma_direction_transition_table()
    ensures
        next_direction(RTPTransceiverDirection::Recvonly, true) == Some(
            RTPTransceiverDirection::Sendrecv,
        ),
        next_direction(RTPTransceiverDirection::Inactive, true) == Some(
            RTPTransceiverDirection::Sendonly,
        ),
        next_direction(RTPTransceiverDirection::Sendrecv, true) == Some(
            RTPTransceiverDirection::Sendrecv,
        ),
        next_direction(RTPTransceiverDirection::Sendonly, true) == Some(
            RTPTransceiverDirection::Sendonly,
        ),
        next_direction(RTPTransceiverDirection::Sendrecv, false) == Some(
            RTPTransceiverDirection::Recvonly,
        ),
        next_direction(RTPTransceiverDirection::Sendonly, false) == Some(
            RTPTransceiverDirection::Inactive,
        ),
        next_direction(RTPTransceiverDirection::Recvonly, false) is None,
        next_direction(RTPTransceiverDirection::Inactive, false) is None,
{
}

/// The ordered list of local directions able to satisfy a remote offer of the
/// given direction, most preferred first: a local sender/receiver must
/// complement the remote's intent.
pub open spec fn spec_preferred_directions(
    remote_direction: RTPTransceiverDirection,
) -> Seq<RTPTransceiverDirection> {
    match remote_direction {
        RTPTransceiverDirection::Sendrecv => seq![
            RTPTransceiverDirection::Recvonly,
            RTPTransceiverDirection::Sendrecv,
        ],
        RTPTransceiverDirection::Sendonly => seq![RTPTransceiverDirection::Recvonly],
        RTPTransceiverDirection::Recvonly => seq![
            RTPTransceiverDirection::Sendonly,
            RTPTransceiverDirection::Sendrecv,
        ],
        RTPTransceiverDirection::Inactive => Seq::empty(),
    }
}

/// Builds the direction preference order for a remote offer.
pub fn preferred_directions(remote_direction: RTPTransceiverDirection) -> (r: Vec<
    RTPTransceiverDirection,
>)
    ensures
        r@ == spec_preferred_directions(remote_direction),
{
    match remote_direction {
        RTPTransceiverDirection::Sendrecv => {
            let r = vec![RTPTransceiverDirection::Recvonly, RTPTransceiverDirection::Sendrecv];
            assert(r@ =~= spec_preferred_directions(remote_direction));
            r
        },
        RTPTransceiverDirection::Sendonly => {
            let r = vec![RTPTransceiverDirection::Recvonly];
            assert(r@ =~= spec_preferred_directions(remote_direction));
            r
        },
        RTPTransceiverDirection::Recvonly => {
            let r = vec![RTPTransceiverDirection::Sendonly, RTPTransceiverDirection::Sendrecv];
            assert(r@ =~= spec_preferred_directions(remote_direction));
            r
        },
        RTPTransceiverDirection::Inactive => {
            let r = Vec::new();
            assert(r@ =~= spec_preferred_directions(remote_direction));
            r
        },
    }
}

} // verus!
