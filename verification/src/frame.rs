//! Decoded frames and the sample buffer that they are copied through.

use vstd::prelude::*;

use crate::NUM_CHANNELS;

verus! {

/// Bytes that one sample takes in the sample buffer.
pub const SAMPLE_BYTES: usize = 8;

/// Rate and channel count of a signal.
#[derive(Clone, Copy, Debug, PartialEq, Eq)]
pub struct SignalSpec {
    /// Sampling rate in hertz.
    pub rate: u32,
    /// Number of channels.
    pub channels: usize,
}

/// What the adapter reads of a decoded frame.
#[derive(Clone, Copy, Debug, PartialEq, Eq)]
pub struct FrameInfo {
    pub spec: SignalSpec,
    /// The most frames, per channel, that the frame's storage can hold.
    pub capacity: usize,
    /// The frames, per channel, that it holds.
    pub frames: usize,
}

/// Shape of the sample buffer: fixed when the first frame is decoded, and
/// kept from then on.
#[derive(Clone, Copy, Debug, PartialEq, Eq)]
pub struct BufferSpec {
    pub spec: SignalSpec,
    /// The most frames, per channel, that the buffer can hold.
    pub capacity: usize,
}

impl BufferSpec {
    /// A buffer can be allocated where it has a channel and its samples can
    /// be addressed.
    pub open spec fn allocatable(self) -> bool {
        self.spec.channels > 0 && self.capacity * self.spec.channels <= usize::MAX / SAMPLE_BYTES
    }

    /// The samples, over all channels, that the buffer can hold.
    pub open spec fn sample_capacity(self) -> int {
        self.capacity * self.spec.channels
    }
}

/// The buffer that a frame asks for when it is the first to be decoded.
pub open spec fn buffer_for(frame: FrameInfo) -> BufferSpec {
    BufferSpec { spec: frame.spec, capacity: frame.capacity }
}

/// Interleaved samples that a frame comes to: one from each channel for each
/// frame.
pub open spec fn sample_count(frame: FrameInfo) -> int {
    frame.frames * frame.spec.channels
}

/// Why a frame cannot be copied through a buffer, if it cannot.
#[derive(Clone, Copy, Debug, PartialEq, Eq)]
pub enum FrameRefusal {
    /// The buffer that the frame asks for cannot be allocated.
    TooLarge,
    /// Rate or channel count differ from the buffer's.
    SpecChanged,
    /// The frame holds more than the buffer can.
    Overflow,
}

/// Whether `buffer`, which is either kept from earlier frames or made for
/// this one, takes the frame; and if not, why not.
pub open spec fn refusal(buffer: BufferSpec, frame: FrameInfo) -> Option<FrameRefusal> {
    if !buffer.allocatable() {
        Some(FrameRefusal::TooLarge)
    } else if frame.spec != buffer.spec {
        Some(FrameRefusal::SpecChanged)
    } else if frame.frames > buffer.capacity {
        Some(FrameRefusal::Overflow)
    } else {
        None
    }
}

/// A frame that a buffer takes has the buffer's rate and channel count, and
/// its samples fit into the buffer.
pub proof fn lemma_accepted_frame_matches(buffer: BufferSpec, frame: FrameInfo)
    requires
        refusal(buffer, frame) is None,
    ensures
        frame.spec == buffer.spec,
        0 <= sample_count(frame) <= buffer.sample_capacity(),
        sample_count(frame) <= usize::MAX,
{
    assert(0 <= frame.frames * frame.spec.channels <= buffer.capacity * buffer.spec.channels)
        by (nonlinear_arith)
        requires
            0 <= frame.frames <= buffer.capacity,
            frame.spec.channels == buffer.spec.channels,
            0 <= buffer.spec.channels,
    ;
}

/// A packet holds whole frames: where the frame has the pipeline's channel
/// count its samples divide evenly among `NUM_CHANNELS` channels. The same
/// holds of any even channel count, and of any even number of frames.
pub proof fn lemma_samples_divide_among_channels(frame: FrameInfo)
    requires
        frame.spec.channels % (NUM_CHANNELS as usize) == 0 || frame.frames % (NUM_CHANNELS as usize)
            == 0,
    ensures
        sample_count(frame) % (NUM_CHANNELS as int) == 0,
{
    let f = frame.frames as int;
    let c = frame.spec.channels as int;
    if c % 2 == 0 {
        vstd::arithmetic::div_mod::lemma_fundamental_div_mod(c, 2);
        assert(f * c == 2 * (f * (c / 2))) by (nonlinear_arith)
            requires
                c == 2 * (c / 2),
        ;
    } else {
        vstd::arithmetic::div_mod::lemma_fundamental_div_mod(f, 2);
        assert(f * c == 2 * ((f / 2) * c)) by (nonlinear_arith)
            requires
                f == 2 * (f / 2),
        ;
    }
}

/// Whether a buffer of this shape can be allocated.
pub fn can_allocate(buffer: BufferSpec) -> (ok: bool)
    ensures
        ok == buffer.allocatable(),
{
    if buffer.spec.channels == 0 {
        return false;
    }
    let limit: usize = usize::MAX / SAMPLE_BYTES / buffer.spec.channels;
    proof {
        lemma_capacity_limit(
            buffer.capacity as int,
            buffer.spec.channels as int,
            (usize::MAX / SAMPLE_BYTES) as int,
        );
    }
    buffer.capacity <= limit
}

/// A product stays within a bound exactly where one factor stays within the
/// bound divided by the other.
proof fn lemma_capacity_limit(capacity: int, channels: int, bound: int)
    requires
        0 <= capacity,
        0 < channels,
        0 <= bound,
    ensures
        capacity * channels <= bound <==> capacity <= bound / channels,
{
    vstd::arithmetic::div_mod::lemma_fundamental_div_mod(bound, channels);
    let q = bound / channels;
    let r = bound % channels;
    if capacity <= q {
        assert(capacity * channels <= q * channels) by (nonlinear_arith)
            requires
                0 <= capacity <= q,
                0 < channels,
        ;
        assert(q * channels == channels * q) by (nonlinear_arith);
    } else {
        assert(capacity * channels >= (q + 1) * channels) by (nonlinear_arith)
            requires
                capacity >= q + 1,
                0 < channels,
        ;
        assert((q + 1) * channels == channels * q + channels) by (nonlinear_arith);
    }
}

/// Checks a frame against the buffer it is to be copied through, and counts
/// the samples that it comes to.
pub fn check_frame(buffer: BufferSpec, frame: FrameInfo) -> (samples: Result<usize, FrameRefusal>)
    ensures
        match samples {
            Ok(n) => refusal(buffer, frame) is None && n == sample_count(frame),
            Err(why) => refusal(buffer, frame) == Some(why),
        },
{
    if !can_allocate(buffer) {
        return Err(FrameRefusal::TooLarge);
    }
    if frame.spec.rate != buffer.spec.rate || frame.spec.channels != buffer.spec.channels {
        return Err(FrameRefusal::SpecChanged);
    }
    if frame.frames > buffer.capacity {
        return Err(FrameRefusal::Overflow);
    }
    assert(frame.frames * frame.spec.channels <= buffer.capacity * buffer.spec.channels)
        by (nonlinear_arith)
        requires
            frame.frames <= buffer.capacity,
            frame.spec.channels == buffer.spec.channels,
    ;
    Ok(frame.frames * frame.spec.channels)
}

} // verus!
