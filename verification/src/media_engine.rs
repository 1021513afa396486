//! The engine-wide codec catalog a transceiver negotiates against.
//!
//! The catalog holds the supported codecs per media kind; its ordering is
//! authoritative when a transceiver has no preference list of its own.

use vstd::prelude::*;

use crate::rtp_codec::{RTPCodecParameters, RTPCodecType};

verus! {

/// MediaEngine holds the engine-wide list of supported codecs per media kind.
#[derive(Debug)]
pub struct MediaEngine {
    /// Supported audio codecs, in catalog order.
    pub audio_codecs: Vec<RTPCodecParameters>,
    /// Supported video codecs, in catalog order.
    pub video_codecs: Vec<RTPCodecParameters>,
}

/// The catalog list the engine holds for a media kind, in catalog order.
pub open spec fn spec_codecs_by_kind(engine: MediaEngine, kind: RTPCodecType) -> Seq<
    RTPCodecParameters,
> {
    match kind {
        RTPCodecType::Audio => engine.audio_codecs@,
        RTPCodecType::Video => engine.video_codecs@,
    }
}

impl MediaEngine {
    /// Creates an engine supporting the given codecs, one list per kind.
    pub fn new(audio_codecs: Vec<RTPCodecParameters>, video_codecs: Vec<RTPCodecParameters>) -> (r:
        MediaEngine)
        ensures
            spec_codecs_by_kind(r, RTPCodecType::Audio) == audio_codecs@,
            spec_codecs_by_kind(r, RTPCodecType::Video) == video_codecs@,
    {
        MediaEngine { audio_codecs, video_codecs }
    }

    /// get_codecs_by_kind returns the full supported-codec list of the given
    /// kind, in catalog order.
    pub fn get_codecs_by_kind(&self, kind: RTPCodecType) -> (r: Vec<RTPCodecParameters>)
        ensures
            r@ == spec_codecs_by_kind(*self, kind),
    {
        match kind {
            RTPCodecType::Audio => clone_codec_list(&self.audio_codecs),
            RTPCodecType::Video => clone_codec_list(&self.video_codecs),
        }
    }
}

/// Copies a codec list element by element.
fn clone_codec_list(codecs: &Vec<RTPCodecParameters>) -> (r: Vec<RTPCodecParameters>)
    ensures
        r@ == codecs@,
{
    let mut r: Vec<RTPCodecParameters> = Vec::new();
    let mut i: usize = 0;
    while i < codecs.len()
        invariant
            0 <= i <= codecs.len(),
            r@ =~= codecs@.subrange(0, i as int),
        decreases codecs.len() - i,
    {
        r.push(codecs[i].clone());
        i = i + 1;
    }
    assert(r@ =~= codecs@);
    r
}

} // verus!
