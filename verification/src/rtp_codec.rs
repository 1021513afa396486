//! Codec parameters and the fuzzy search that reconciles a candidate codec
//! against the engine's catalog.

use vstd::prelude::*;

use crate::scan::first_index;

verus! {

/// RTPCodecType marks the media kind a codec or transceiver handles.
#[derive(Clone, Copy, Debug, PartialEq, Eq, Structural)]
pub enum RTPCodecType {
    /// An audio codec or transceiver.
    Audio,
    /// A video codec or transceiver.
    Video,
}

/// CodecMatch is the tier a fuzzy search assigns to a candidate codec.
#[derive(Clone, Copy, Debug, PartialEq, Eq, Structural)]
pub enum CodecMatch {
    /// The candidate matches no catalog entry.
    NoMatch,
    /// Only the candidate's mime type matches a catalog entry.
    Partial,
    /// The candidate's mime type and fmtp line both match a catalog entry.
    Exact,
}

/// RTPCodecParameters describes one codec as negotiated for a session.
#[derive(Debug, PartialEq, Eq)]
pub struct RTPCodecParameters {
    /// Mime type of the codec, such as `audio/opus`.
    pub mime_type: String,
    /// Sampling clock rate in hertz.
    pub clock_rate: u32,
    /// Number of audio channels; zero for video.
    pub channels: u16,
    /// The fmtp line carrying codec-specific parameters.
    pub sdp_fmtp_line: String,
    /// The RTP payload type number bound to this codec.
    pub payload_type: u8,
}

impl Clone for RTPCodecParameters {
    fn clone(&self) -> (r: Self)
        ensures
            r == *self,
    {
        RTPCodecParameters {
            mime_type: self.mime_type.clone(),
            clock_rate: self.clock_rate,
            channels: self.channels,
            sdp_fmtp_line: self.sdp_fmtp_line.clone(),
            payload_type: self.payload_type,
        }
    }
}

/// An exact fuzzy-search hit: mime type and fmtp line both agree.
pub open spec fn exact_match(candidate: RTPCodecParameters, entry: RTPCodecParameters) -> bool {
    candidate.mime_type@ == entry.mime_type@ && candidate.sdp_fmtp_line@ == entry.sdp_fmtp_line@
}

/// A partial fuzzy-search hit: only the mime type agrees.
pub open spec fn partial_match(candidate: RTPCodecParameters, entry: RTPCodecParameters) -> bool {
    candidate.mime_type@ == entry.mime_type@
}

/// The exact-match predicate of one candidate, as a function of the entry.
pub open spec fn exact_pred(candidate: RTPCodecParameters) -> spec_fn(RTPCodecParameters) -> bool {
    |entry: RTPCodecParameters| exact_match(candidate, entry)
}

/// The partial-match predicate of one candidate, as a function of the entry.
pub open spec fn partial_pred(candidate: RTPCodecParameters) -> spec_fn(
    RTPCodecParameters,
) -> bool {
    |entry: RTPCodecParameters| partial_match(candidate, entry)
}

/// The catalog index the fuzzy search resolves a candidate to: the earliest
/// exact match if one exists, else the earliest partial match, else `None`.
pub open spec fn fuzzy_match_index(
    candidate: RTPCodecParameters,
    catalog: Seq<RTPCodecParameters>,
) -> Option<int> {
    match first_index(catalog, exact_pred(candidate)) {
        Some(i) => Some(i),
        None => first_index(catalog, partial_pred(candidate)),
    }
}

/// The tier the fuzzy search assigns to a candidate against a catalog.
pub open spec fn fuzzy_match_tier(
    candidate: RTPCodecParameters,
    catalog: Seq<RTPCodecParameters>,
) -> CodecMatch {
    if first_index(catalog, exact_pred(candidate)) is Some {
        CodecMatch::Exact
    } else if first_index(catalog, partial_pred(candidate)) is Some {
        CodecMatch::Partial
    } else {
        CodecMatch::NoMatch
    }
}

/// codec_parameters_fuzzy_search compares a candidate codec against a catalog
/// list: first it looks for an entry agreeing on mime type and fmtp line,
/// then it falls back to mime type alone.  It returns the earliest such
/// catalog entry (the canonical representation, not the candidate) together
/// with the tier of the hit, or no entry and `NoMatch`.
pub fn codec_parameters_fuzzy_search(
    needle: &RTPCodecParameters,
    haystack: &Vec<RTPCodecParameters>,
) -> (r: (Option<RTPCodecParameters>, CodecMatch))
    ensures
        r.1 == fuzzy_match_tier(*needle, haystack@),
        match fuzzy_match_index(*needle, haystack@) {
            Some(i) => r.0 == Some(haystack@[i]),
            None => r.0 is None,
        },
{
    let ghost ep = exact_pred(*needle);
    let ghost pp = partial_pred(*needle);
    let mut i: usize = 0;
    while i < haystack.len()
        invariant
            0 <= i <= haystack.len(),
            crate::scan::first_from(haystack@, ep, 0) == crate::scan::first_from(
                haystack@,
                ep,
                i as int,
            ),
            ep == exact_pred(*needle),
        decreases haystack.len() - i,
    {
        let c = &haystack[i];
        if needle.mime_type == c.mime_type && needle.sdp_fmtp_line == c.sdp_fmtp_line {
            assert(ep(haystack@[i as int]));
            return (Some(c.clone()), CodecMatch::Exact);
        }
        assert(!ep(haystack@[i as int]));
        i = i + 1;
    }
    let mut j: usize = 0;
    while j < haystack.len()
        invariant
            0 <= j <= haystack.len(),
            crate::scan::first_from(haystack@, ep, 0) is None,
            crate::scan::first_from(haystack@, pp, 0) == crate::scan::first_from(
                haystack@,
                pp,
                j as int,
            ),
            ep == exact_pred(*needle),
            pp == partial_pred(*needle),
        decreases haystack.len() - j,
    {
        let c = &haystack[j];
        if needle.mime_type == c.mime_type {
            assert(pp(haystack@[j as int]));
            return (Some(c.clone()), CodecMatch::Partial);
        }
        assert(!pp(haystack@[j as int]));
        j = j + 1;
    }
    (None, CodecMatch::NoMatch)
}

/// The sequence `get_codecs` returns when a preference list is in force: each
/// preferred codec, in preference order, replaced by the catalog entry it
/// resolves to, and silently dropped when it no longer resolves.
pub open spec fn resolved_codecs(
    prefs: Seq<RTPCodecParameters>,
    catalog: Seq<RTPCodecParameters>,
) -> Seq<RTPCodecParameters>
    decreases prefs.len(),
{
    if prefs.len() == 0 {
        Seq::empty()
    } else {
        let init = resolved_codecs(prefs.drop_last(), catalog);
        match fuzzy_match_index(prefs.last(), catalog) {
            Some(i) => init.push(catalog[i]),
            None => init,
        }
    }
}

/// Whether every candidate of a preference list finds some catalog match.
pub open spec fn all_supported(
    candidates: Seq<RTPCodecParameters>,
    catalog: Seq<RTPCodecParameters>,
) -> bool {
    forall|i: int|
        0 <= i < candidates.len() ==> #[trigger] fuzzy_match_tier(candidates[i], catalog)
            != CodecMatch::NoMatch
}

} // verus!
