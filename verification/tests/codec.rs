use rtp_transceiver::rtp_codec::{
    codec_parameters_fuzzy_search, CodecMatch, RTPCodecParameters,
};

fn codec(mime: &str, fmtp: &str, clock_rate: u32) -> RTPCodecParameters {
    RTPCodecParameters {
        mime_type: mime.to_string(),
        clock_rate,
        channels: 2,
        sdp_fmtp_line: fmtp.to_string(),
        payload_type: 111,
    }
}

#[test]
fn fuzzy_search_exact_match_returns_catalog_entry() {
    let haystack = vec![
        codec("audio/opus", "minptime=10;useinbandfec=1", 48000),
        codec("audio/G722", "", 8000),
    ];
    // The candidate agrees on mime type and fmtp line but not clock rate;
    // the canonical catalog entry must come back, not the candidate.
    let needle = codec("audio/opus", "minptime=10;useinbandfec=1", 1);
    let (resolved, tier) = codec_parameters_fuzzy_search(&needle, &haystack);
    assert_eq!(tier, CodecMatch::Exact);
    assert_eq!(resolved, Some(haystack[0].clone()));
    assert_eq!(resolved.unwrap().clock_rate, 48000);
}

#[test]
fn fuzzy_search_partial_match_on_mime_type_alone() {
    let haystack = vec![
        codec("audio/G722", "", 8000),
        codec("audio/opus", "minptime=10", 48000),
    ];
    let needle = codec("audio/opus", "useinbandfec=1", 48000);
    let (resolved, tier) = codec_parameters_fuzzy_search(&needle, &haystack);
    assert_eq!(tier, CodecMatch::Partial);
    assert_eq!(resolved, Some(haystack[1].clone()));
}

#[test]
fn fuzzy_search_no_match() {
    let haystack = vec![codec("audio/opus", "minptime=10", 48000)];
    let needle = codec("video/VP8", "", 90000);
    let (resolved, tier) = codec_parameters_fuzzy_search(&needle, &haystack);
    assert_eq!(tier, CodecMatch::NoMatch);
    assert_eq!(resolved, None);
}

#[test]
fn fuzzy_search_on_empty_catalog() {
    let haystack: Vec<RTPCodecParameters> = Vec::new();
    let needle = codec("audio/opus", "", 48000);
    let (resolved, tier) = codec_parameters_fuzzy_search(&needle, &haystack);
    assert_eq!(tier, CodecMatch::NoMatch);
    assert_eq!(resolved, None);
}

#[test]
fn fuzzy_search_prefers_exact_over_earlier_partial() {
    // A partial hit stands earlier in the catalog than the exact hit; the
    // exact one must still win.
    let haystack = vec![
        codec("audio/opus", "minptime=5", 48000),
        codec("audio/opus", "minptime=10", 48000),
    ];
    let needle = codec("audio/opus", "minptime=10", 48000);
    let (resolved, tier) = codec_parameters_fuzzy_search(&needle, &haystack);
    assert_eq!(tier, CodecMatch::Exact);
    assert_eq!(resolved, Some(haystack[1].clone()));
}

#[test]
fn fuzzy_search_earliest_exact_wins() {
    let haystack = vec![
        codec("audio/opus", "minptime=10", 48000),
        codec("audio/opus", "minptime=10", 24000),
    ];
    let needle = codec("audio/opus", "minptime=10", 16000);
    let (resolved, tier) = codec_parameters_fuzzy_search(&needle, &haystack);
    assert_eq!(tier, CodecMatch::Exact);
    assert_eq!(resolved.unwrap().clock_rate, 48000);
}
