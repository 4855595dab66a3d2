//! The adapter's state, and what it decides at each step.
//!
//! The adapter pulls packets from a demultiplexer and hands them to a codec.
//! Reading and decoding happen elsewhere; their outcomes come in here as
//! plain values, and what to do next goes out.

use vstd::prelude::*;

use crate::error::{append_decimal, decimal, surfaced_kind};
use crate::error::{DecoderError, ErrorKind, FaultKind, StreamFault};
use crate::frame::{buffer_for, check_frame, refusal, sample_count};
use crate::frame::{BufferSpec, FrameInfo, FrameRefusal};
use crate::normalisation::{gains_of_log, latest_gains, latest_only, revisions, NormalisationData};
use crate::time::{position_ms, ts_to_ms, TimeBase};
use crate::{NUM_CHANNELS, SAMPLE_RATE};

verus! {

/// What a codec reports of the track it was made for.
#[derive(Clone, Copy, Debug, PartialEq, Eq)]
pub struct TrackParams {
    pub sample_rate: Option<u32>,
    /// Number of channels.
    pub channels: Option<usize>,
    pub time_base: Option<TimeBase>,
}

/// Why track parameters are turned down, if they are: the kind of error and
/// its message.
pub open spec fn rejection(params: TrackParams) -> Option<(ErrorKind, Seq<char>)> {
    match (params.sample_rate, params.channels) {
        (None, _) => Some((ErrorKind::CodecInitFailure, "Could not retrieve sample rate"@)),
        (Some(_), None) => Some(
            (ErrorKind::CodecInitFailure, "Could not retrieve channel configuration"@),
        ),
        (Some(rate), Some(channels)) => if rate != SAMPLE_RATE {
            Some((ErrorKind::UnsupportedFormat, "Unsupported sample rate: "@ + decimal(rate as nat)))
        } else if channels != NUM_CHANNELS {
            Some(
                (
                    ErrorKind::UnsupportedFormat,
                    "Unsupported number of channels: "@ + decimal(channels as nat),
                ),
            )
        } else if params.time_base matches Some(tb) && !tb.valid() {
            Some((ErrorKind::CodecInitFailure, "Invalid time base"@))
        } else {
            None
        },
    }
}

/// Checks that a track is what the pipeline plays: `SAMPLE_RATE` hertz on
/// `NUM_CHANNELS` channels, with a usable time base if it has one.
fn check_params(params: TrackParams) -> (checked: Result<(), DecoderError>)
    ensures
        match checked {
            Ok(_) => rejection(params) is None,
            Err(e) => rejection(params) == Some((e.kind, e.message@)),
        },
{
    let rate = match params.sample_rate {
        Some(rate) => rate,
        None => {
            return Err(
                DecoderError::with_text(
                    ErrorKind::CodecInitFailure,
                    "Could not retrieve sample rate",
                ),
            );
        },
    };
    let channels = match params.channels {
        Some(channels) => channels,
        None => {
            return Err(
                DecoderError::with_text(
                    ErrorKind::CodecInitFailure,
                    "Could not retrieve channel configuration",
                ),
            );
        },
    };
    if rate != SAMPLE_RATE {
        let message = append_decimal(String::from_str("Unsupported sample rate: "), rate as u64);
        return Err(DecoderError { kind: ErrorKind::UnsupportedFormat, message });
    }
    if channels != NUM_CHANNELS as usize {
        let message = append_decimal(
            String::from_str("Unsupported number of channels: "),
            channels as u64,
        );
        return Err(DecoderError { kind: ErrorKind::UnsupportedFormat, message });
    }
    if let Some(tb) = params.time_base {
        if tb.numer == 0 || tb.denom == 0 {
            return Err(DecoderError::with_text(ErrorKind::CodecInitFailure, "Invalid time base"));
        }
    }
    Ok(())
}

/// What to do once the demultiplexer has failed to give a packet.
#[derive(Debug, PartialEq, Eq)]
pub enum DemuxStep {
    /// The stream has ended; there is no packet and no error.
    EndOfStream,
    /// Reset the codec and ask the demultiplexer again.
    ResetAndRetry,
    /// Give up with this error.
    Fail(DecoderError),
}

/// Decides what follows a fault of the demultiplexer that was asked for a
/// packet.
///
/// The end of the byte source ends the stream without an error. A demand for
/// a reset is met here and now: the codec is reset and the demultiplexer asked
/// again. Every other fault is reported.
pub fn on_demux_fault(fault: StreamFault) -> (step: DemuxStep)
    ensures
        match fault.kind {
            FaultKind::EndOfStream => step == DemuxStep::EndOfStream,
            FaultKind::ResetRequired => step == DemuxStep::ResetAndRetry,
            FaultKind::Io => {
                &&& step matches DemuxStep::Fail(e)
                &&& e.kind == ErrorKind::IoFailure
                &&& e.message == fault.message
            },
            FaultKind::Other => {
                &&& step matches DemuxStep::Fail(e)
                &&& e.kind == ErrorKind::DecodeFailure
                &&& e.message == fault.message
            },
        },
{
    match fault.kind {
        FaultKind::EndOfStream => DemuxStep::EndOfStream,
        FaultKind::ResetRequired => DemuxStep::ResetAndRetry,
        FaultKind::Io => DemuxStep::Fail(DecoderError::surfaced(fault)),
        FaultKind::Other => DemuxStep::Fail(DecoderError::surfaced(fault)),
    }
}

/// What to do once the demultiplexer was asked to seek.
#[derive(Debug, PartialEq, Eq)]
pub enum SeekStep {
    /// Reset the codec, then report this position as the one landed on.
    ResetAndReport { position_ms: u32 },
    /// Give up with this error; the codec is left as it is.
    Fail(DecoderError),
}

/// A packet of samples that is ready to be handed on.
#[derive(Clone, Copy, Debug, PartialEq, Eq)]
pub struct PacketLayout {
    /// Where the packet starts.
    pub position_ms: u32,
    /// Number of interleaved samples in it.
    pub samples: usize,
}

/// The message that goes with a frame that is turned down.
pub open spec fn refusal_text(why: FrameRefusal) -> Seq<char> {
    match why {
        FrameRefusal::TooLarge => "Decoded frame is too large for a sample buffer"@,
        FrameRefusal::SpecChanged => "Decoded frame does not match the sample buffer"@,
        FrameRefusal::Overflow => "Decoded frame does not fit the sample buffer"@,
    }
}

/// The buffer that a frame is copied through: the one kept from earlier
/// frames, or, for the first frame, the one that the frame asks for.
pub open spec fn buffer_in_use(kept: Option<BufferSpec>, frame: FrameInfo) -> BufferSpec {
    match kept {
        Some(buffer) => buffer,
        None => buffer_for(frame),
    }
}

/// The state of an adapter between calls.
pub struct SymphoniaDecoder {
    time_base: Option<TimeBase>,
    sample_buffer: Option<BufferSpec>,
}

impl SymphoniaDecoder {
    #[verifier::type_invariant]
    spec fn well_formed(self) -> bool {
        &&& self.time_base matches Some(tb) ==> tb.valid()
        &&& self.sample_buffer matches Some(buffer) ==> buffer.allocatable()
    }

    /// The time base of the track, if it has one.
    pub closed spec fn spec_time_base(&self) -> Option<TimeBase> {
        self.time_base
    }

    /// The shape of the sample buffer, once a frame has been decoded.
    pub closed spec fn spec_sample_buffer(&self) -> Option<BufferSpec> {
        self.sample_buffer
    }

    /// The time base of the track, if it has one.
    #[verifier::when_used_as_spec(spec_time_base)]
    pub fn time_base(&self) -> (time_base: Option<TimeBase>)
        ensures
            time_base == self.spec_time_base(),
            time_base matches Some(tb) ==> tb.valid(),
    {
        proof {
            use_type_invariant(self);
        }
        self.time_base
    }

    /// The shape of the sample buffer, once a frame has been decoded.
    #[verifier::when_used_as_spec(spec_sample_buffer)]
    pub fn sample_buffer(&self) -> (buffer: Option<BufferSpec>)
        ensures
            buffer == self.spec_sample_buffer(),
            buffer matches Some(b) ==> b.allocatable(),
    {
        proof {
            use_type_invariant(self);
        }
        self.sample_buffer
    }

    /// Makes an adapter for a track whose codec reports `params`. It is made
    /// exactly where they name the pipeline's sample rate and channel count
    /// and no unusable time base, and starts without a sample buffer.
    /// Otherwise the sample rate is looked at first, then the channels, then
    /// the time base.
    pub fn new(params: TrackParams) -> (made: Result<SymphoniaDecoder, DecoderError>)
        ensures
            match made {
                Ok(decoder) => {
                    &&& rejection(params) is None
                    &&& params.sample_rate == Some(SAMPLE_RATE)
                    &&& params.channels == Some(NUM_CHANNELS as usize)
                    &&& decoder.time_base() == params.time_base
                    &&& decoder.sample_buffer() is None
                },
                Err(e) => rejection(params) == Some((e.kind, e.message@)),
            },
    {
        match check_params(params) {
            Ok(_) => Ok(SymphoniaDecoder { time_base: params.time_base, sample_buffer: None }),
            Err(e) => Err(e),
        }
    }

    /// Position in milliseconds of a timestamp of this track.
    pub fn ts_to_ms(&self, ts: u64) -> (ms: u32)
        ensures
            ms == position_ms(self.time_base(), ts),
    {
        ts_to_ms(self.time_base(), ts)
    }

    /// Takes in a decoded frame, and lays out the packet that it makes.
    ///
    /// The first frame fixes the sample buffer: as many frames as the frame
    /// has room for, at the frame's rate and channel count. Every frame must
    /// have the buffer's rate and channel count and fit into it, and then
    /// comes to one sample from each channel for each of its frames.
    pub fn on_frame(&mut self, position_ms: u32, frame: FrameInfo) -> (packet: Result<
        PacketLayout,
        DecoderError,
    >)
        ensures
            final(self).time_base() == old(self).time_base(),
            old(self).sample_buffer() is Some ==> final(self).sample_buffer() == old(
                self,
            ).sample_buffer(),
            match refusal(buffer_in_use(old(self).sample_buffer(), frame), frame) {
                None => {
                    &&& packet matches Ok(layout)
                    &&& layout.position_ms == position_ms
                    &&& layout.samples == sample_count(frame)
                    &&& final(self).sample_buffer() == Some(
                        buffer_in_use(old(self).sample_buffer(), frame),
                    )
                },
                Some(why) => {
                    &&& packet matches Err(e)
                    &&& e.kind == ErrorKind::DecodeFailure
                    &&& e.message@ == refusal_text(why)
                    &&& final(self).sample_buffer() == old(self).sample_buffer()
                },
            },
    {
        proof {
            use_type_invariant(&*self);
        }
        let buffer = match self.sample_buffer {
            Some(buffer) => buffer,
            None => BufferSpec { spec: frame.spec, capacity: frame.capacity },
        };
        match check_frame(buffer, frame) {
            Ok(samples) => {
                self.sample_buffer = Some(buffer);
                Ok(PacketLayout { position_ms, samples })
            },
            Err(FrameRefusal::TooLarge) => Err(
                DecoderError::with_text(
                    ErrorKind::DecodeFailure,
                    "Decoded frame is too large for a sample buffer",
                ),
            ),
            Err(FrameRefusal::SpecChanged) => Err(
                DecoderError::with_text(
                    ErrorKind::DecodeFailure,
                    "Decoded frame does not match the sample buffer",
                ),
            ),
            Err(FrameRefusal::Overflow) => Err(
                DecoderError::with_text(
                    ErrorKind::DecodeFailure,
                    "Decoded frame does not fit the sample buffer",
                ),
            ),
        }
    }

    /// Decides what follows once the demultiplexer was asked to seek.
    ///
    /// Where it landed on a timestamp, the codec is reset, whatever state it
    /// is in, and the position of that timestamp is reported. A fault is
    /// reported as it is. The sample buffer stays as it is either way.
    pub fn on_seek(&self, seeked: Result<u64, StreamFault>) -> (step: SeekStep)
        ensures
            match seeked {
                Ok(actual_ts) => step == (SeekStep::ResetAndReport {
                    position_ms: position_ms(self.time_base(), actual_ts),
                }),
                Err(fault) => {
                    &&& step matches SeekStep::Fail(e)
                    &&& e.kind == surfaced_kind(fault.kind)
                    &&& e.message == fault.message
                },
            },
    {
        match seeked {
            Ok(actual_ts) => SeekStep::ResetAndReport { position_ms: self.ts_to_ms(actual_ts) },
            Err(fault) => SeekStep::Fail(DecoderError::surfaced(fault)),
        }
    }

    /// Reads the ReplayGain values of the newest revision in the
    /// demultiplexer's metadata log, discarding the older revisions.
    ///
    /// There are none where the log is empty or its newest revision has no
    /// tags. Otherwise each of the four values is the number of the last tag
    /// that sets it, and zero where no tag does.
    pub fn normalisation_data(&mut self, metadata: &mut symphonia::core::meta::Metadata) -> (gains:
        Option<NormalisationData>)
        ensures
            gains == gains_of_log(revisions(*old(metadata))),
            revisions(*final(metadata)) == latest_only(revisions(*old(metadata))),
            final(self).time_base() == old(self).time_base(),
            final(self).sample_buffer() == old(self).sample_buffer(),
    {
        latest_gains(metadata)
    }
}

} // verus!
