//! Verified core of a streaming audio decoder adapter.
//!
//! The adapter sits between a container demultiplexer, a codec and a playback
//! pipeline with a fixed output format. Everything it decides is a function
//! of plain values and is proved here: which probe hint a file format gets,
//! which track parameters are accepted, how a timestamp becomes a position in
//! milliseconds, what follows each outcome of pulling and decoding a packet,
//! how a seek is split up and answered, and which ReplayGain values the
//! newest metadata revision holds.

use vstd::prelude::*;

pub mod decoder;
pub mod error;
pub mod format;
pub mod frame;
pub mod normalisation;
pub mod time;

verus! {

/// Sample rate, in hertz, of every stream the playback pipeline accepts.
pub const SAMPLE_RATE: u32 = 44100;

/// Number of interleaved channels of every stream the playback pipeline accepts.
pub const NUM_CHANNELS: u8 = 2;

} // verus!
