//! Transceiver management core of a real-time media transport stack.
//!
//! A transceiver pairs at most one outbound sender and one inbound receiver
//! under a shared media identifier ("mid") and a negotiated direction.  This
//! crate verifies the transceiver's direction state machine, its codec
//! preference negotiation against an engine-wide codec catalog, and the two
//! matching algorithms that bind a remote media line to a local transceiver.

pub mod error;
pub mod media_engine;
pub mod rtp_codec;
pub mod rtp_receiver;
pub mod rtp_sender;
pub mod rtp_transceiver;
pub mod rtp_transceiver_direction;
pub mod scan;
pub mod track_local;
