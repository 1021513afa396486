use std::sync::Arc;

use rtp_transceiver::media_engine::MediaEngine;
use rtp_transceiver::rtp_codec::RTPCodecType;
use rtp_transceiver::rtp_transceiver::{find_by_mid, satisfy_type_and_direction, RTPTransceiver};
use rtp_transceiver::rtp_transceiver_direction::RTPTransceiverDirection;

fn transceiver(
    mid: &str,
    kind: RTPCodecType,
    direction: RTPTransceiverDirection,
) -> Arc<RTPTransceiver> {
    let engine = Arc::new(MediaEngine::new(Vec::new(), Vec::new()));
    let mut t = RTPTransceiver::new(None, None, direction, kind, Vec::new(), engine);
    if !mid.is_empty() {
        t.set_mid(mid.to_string()).unwrap();
    }
    Arc::new(t)
}

#[test]
fn find_by_mid_removes_the_first_duplicate_only() {
    let mut pool = vec![
        transceiver("", RTPCodecType::Audio, RTPTransceiverDirection::Sendrecv),
        transceiver("m1", RTPCodecType::Audio, RTPTransceiverDirection::Sendrecv),
        transceiver("m1", RTPCodecType::Audio, RTPTransceiverDirection::Recvonly),
    ];
    let found = find_by_mid("m1", &mut pool).expect("a transceiver with mid m1");
    assert_eq!(found.mid(), "m1");
    assert_eq!(found.direction(), RTPTransceiverDirection::Sendrecv);
    assert_eq!(pool.len(), 2);
    assert_eq!(pool[0].mid(), "");
    assert_eq!(pool[1].mid(), "m1");
    assert_eq!(pool[1].direction(), RTPTransceiverDirection::Recvonly);
}

#[test]
fn find_by_mid_without_match_leaves_the_pool_unchanged() {
    let mut pool = vec![
        transceiver("m0", RTPCodecType::Audio, RTPTransceiverDirection::Sendrecv),
    ];
    assert!(find_by_mid("m1", &mut pool).is_none());
    assert_eq!(pool.len(), 1);
    assert_eq!(pool[0].mid(), "m0");
}

#[test]
fn find_by_mid_is_case_sensitive() {
    let mut pool = vec![
        transceiver("M1", RTPCodecType::Audio, RTPTransceiverDirection::Sendrecv),
    ];
    assert!(find_by_mid("m1", &mut pool).is_none());
    assert_eq!(pool.len(), 1);
}

#[test]
fn satisfy_prefers_the_direction_tier_over_pool_order() {
    // The Recvonly transceiver stands later in the pool but its direction
    // tier is preferred for a remote Sendrecv offer.
    let mut pool = vec![
        transceiver("", RTPCodecType::Video, RTPTransceiverDirection::Sendrecv),
        transceiver("", RTPCodecType::Video, RTPTransceiverDirection::Recvonly),
    ];
    let found = satisfy_type_and_direction(
        RTPCodecType::Video,
        RTPTransceiverDirection::Sendrecv,
        &mut pool,
    )
    .expect("a matching transceiver");
    assert_eq!(found.direction(), RTPTransceiverDirection::Recvonly);
    assert_eq!(pool.len(), 1);
    assert_eq!(pool[0].direction(), RTPTransceiverDirection::Sendrecv);
}

#[test]
fn satisfy_breaks_ties_within_one_tier_by_pool_order() {
    let mut pool = vec![
        transceiver("", RTPCodecType::Audio, RTPTransceiverDirection::Recvonly),
        transceiver("", RTPCodecType::Audio, RTPTransceiverDirection::Recvonly),
    ];
    let found = satisfy_type_and_direction(
        RTPCodecType::Audio,
        RTPTransceiverDirection::Sendonly,
        &mut pool,
    )
    .expect("a matching transceiver");
    assert_eq!(found.direction(), RTPTransceiverDirection::Recvonly);
    assert_eq!(pool.len(), 1);
}

#[test]
fn satisfy_for_sendonly_remote_accepts_recvonly_only() {
    let mut pool = vec![
        transceiver("", RTPCodecType::Audio, RTPTransceiverDirection::Sendonly),
        transceiver("", RTPCodecType::Audio, RTPTransceiverDirection::Sendrecv),
    ];
    assert!(satisfy_type_and_direction(
        RTPCodecType::Audio,
        RTPTransceiverDirection::Sendonly,
        &mut pool,
    )
    .is_none());
    assert_eq!(pool.len(), 2);
}

#[test]
fn satisfy_for_recvonly_remote_prefers_sendonly_over_sendrecv() {
    let mut pool = vec![
        transceiver("", RTPCodecType::Audio, RTPTransceiverDirection::Sendrecv),
        transceiver("", RTPCodecType::Audio, RTPTransceiverDirection::Sendonly),
    ];
    let found = satisfy_type_and_direction(
        RTPCodecType::Audio,
        RTPTransceiverDirection::Recvonly,
        &mut pool,
    )
    .expect("a matching transceiver");
    assert_eq!(found.direction(), RTPTransceiverDirection::Sendonly);
    assert_eq!(pool[0].direction(), RTPTransceiverDirection::Sendrecv);
}

#[test]
fn satisfy_for_inactive_remote_matches_nothing() {
    let mut pool = vec![
        transceiver("", RTPCodecType::Audio, RTPTransceiverDirection::Recvonly),
        transceiver("", RTPCodecType::Audio, RTPTransceiverDirection::Inactive),
    ];
    assert!(satisfy_type_and_direction(
        RTPCodecType::Audio,
        RTPTransceiverDirection::Inactive,
        &mut pool,
    )
    .is_none());
    assert_eq!(pool.len(), 2);
}

#[test]
fn satisfy_skips_other_kinds_and_assigned_mids() {
    let mut pool = vec![
        transceiver("", RTPCodecType::Audio, RTPTransceiverDirection::Recvonly),
        transceiver("m1", RTPCodecType::Video, RTPTransceiverDirection::Recvonly),
        transceiver("", RTPCodecType::Video, RTPTransceiverDirection::Recvonly),
    ];
    let found = satisfy_type_and_direction(
        RTPCodecType::Video,
        RTPTransceiverDirection::Sendrecv,
        &mut pool,
    )
    .expect("a matching transceiver");
    assert_eq!(found.mid(), "");
    assert_eq!(found.kind(), RTPCodecType::Video);
    assert_eq!(pool.len(), 2);
    assert_eq!(pool[1].mid(), "m1");
}
