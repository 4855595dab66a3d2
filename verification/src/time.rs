//! Timestamps in time-base units, positions in milliseconds.

use vstd::prelude::*;
use vstd::arithmetic::div_mod::{lemma_div_is_ordered, lemma_fundamental_div_mod};

use crate::SAMPLE_RATE;

verus! {

/// Length of one timestamp tick in seconds, as the fraction `numer / denom`.
#[derive(Clone, Copy, Debug, PartialEq, Eq)]
pub struct TimeBase {
    pub numer: u32,
    pub denom: u32,
}

impl TimeBase {
    /// A time base is a positive fraction: neither part may be zero.
    pub open spec fn valid(self) -> bool {
        self.numer > 0 && self.denom > 0
    }

    /// Makes a time base, or `None` where either part is zero.
    pub fn new(numer: u32, denom: u32) -> (r: Option<TimeBase>)
        ensures
            r is Some <==> numer > 0 && denom > 0,
            r matches Some(tb) ==> tb.numer == numer && tb.denom == denom,
    {
        if numer > 0 && denom > 0 {
            Some(TimeBase { numer, denom })
        } else {
            None
        }
    }
}

/// Whole milliseconds that `ts` ticks last, before any clamping.
///
/// With a time base this is the floor of `ts * numer / denom` seconds taken
/// in milliseconds. Without one, a tick counts as a page and there are
/// `SAMPLE_RATE / 1000` pages to the millisecond.
pub open spec fn elapsed_ms(time_base: Option<TimeBase>, ts: int) -> int {
    match time_base {
        Some(tb) => (ts * tb.numer * 1000) / (tb.denom as int),
        None => (ts * SAMPLE_RATE) / 1000,
    }
}

/// The largest position that can be reported stands for everything beyond it.
pub open spec fn clamp_ms(ms: int) -> u32 {
    if ms > u32::MAX {
        u32::MAX
    } else {
        ms as u32
    }
}

/// Position in milliseconds of the timestamp `ts`.
pub open spec fn position_ms(time_base: Option<TimeBase>, ts: u64) -> u32 {
    clamp_ms(elapsed_ms(time_base, ts as int))
}

/// Converts a timestamp to a position in milliseconds, saturating at
/// `u32::MAX`.
pub fn ts_to_ms(time_base: Option<TimeBase>, ts: u64) -> (ms: u32)
    requires
        time_base matches Some(tb) ==> tb.valid(),
    ensures
        ms == position_ms(time_base, ts),
{
    let scaled: u128 = match time_base {
        Some(tb) => {
            assert(ts * tb.numer * 1000 <= 0xffff_ffff_ffff_ffff * 0xffff_ffff * 1000)
                by (nonlinear_arith)
                requires
                    ts <= 0xffff_ffff_ffff_ffff,
                    tb.numer <= 0xffff_ffff,
            ;
            (ts as u128) * (tb.numer as u128) * 1000 / (tb.denom as u128)
        },
        None => {
            assert(ts * SAMPLE_RATE <= 0xffff_ffff_ffff_ffff * 0xffff_ffff) by (nonlinear_arith)
                requires
                    ts <= 0xffff_ffff_ffff_ffff,
                    SAMPLE_RATE <= 0xffff_ffff,
            ;
            (ts as u128) * (SAMPLE_RATE as u128) / 1000
        },
    };
    if scaled > u32::MAX as u128 {
        u32::MAX
    } else {
        scaled as u32
    }
}

/// How closely a seek has to land on the position asked for.
#[derive(Clone, Copy, Debug, PartialEq, Eq)]
pub enum SeekMode {
    /// As near as is cheap, before or after the position.
    Coarse,
    /// On the packet that holds the position, never after it.
    Accurate,
}

/// What the demultiplexer is asked when the adapter seeks.
#[derive(Clone, Copy, Debug, PartialEq, Eq)]
pub struct SeekRequest {
    pub mode: SeekMode,
    /// Whole seconds of the position.
    pub seconds: u64,
    /// The rest of the position, in thousandths of a second.
    pub millis: u32,
    /// The track whose timestamp is wanted back; `None` stands for the
    /// container's default track.
    pub track_id: Option<u32>,
}

/// The request for a seek to a position in milliseconds: always accurate,
/// always on the default track, the position split into whole seconds and
/// the remaining milliseconds.
pub fn seek_request(position_ms: u32) -> (request: SeekRequest)
    ensures
        request.mode == SeekMode::Accurate,
        request.track_id is None,
        request.seconds == position_ms / 1000,
        request.millis == position_ms % 1000,
{
    SeekRequest {
        mode: SeekMode::Accurate,
        seconds: (position_ms / 1000) as u64,
        millis: position_ms % 1000,
        track_id: None,
    }
}

/// Splitting a position loses nothing: the parts are in range and add up to
/// the position again.
pub proof fn lemma_seek_request_recombines(position_ms: u32)
    ensures
        (position_ms % 1000) < 1000,
        (position_ms / 1000) * 1000 + (position_ms % 1000) == position_ms,
{
    lemma_fundamental_div_mod(position_ms as int, 1000);
}

/// A stream that counts milliseconds reports its timestamps unchanged, up to
/// the largest position.
pub proof fn lemma_millisecond_ticks_are_positions(time_base: TimeBase, ts: u64)
    requires
        time_base.numer == 1,
        time_base.denom == 1000,
    ensures
        position_ms(Some(time_base), ts) == clamp_ms(ts as int),
{
    assert((ts * 1 * 1000) / 1000 == ts);
}

/// Positions follow timestamps: a later timestamp never gives an earlier
/// position.
pub proof fn lemma_position_monotonic(time_base: Option<TimeBase>, earlier: u64, later: u64)
    requires
        time_base matches Some(tb) ==> tb.valid(),
        earlier <= later,
    ensures
        position_ms(time_base, earlier) <= position_ms(time_base, later),
{
    lemma_elapsed_monotonic(time_base, earlier as int, later as int);
}

/// The exact duration grows with the number of ticks.
pub proof fn lemma_elapsed_monotonic(time_base: Option<TimeBase>, fewer: int, more: int)
    requires
        time_base matches Some(tb) ==> tb.valid(),
        0 <= fewer <= more,
    ensures
        0 <= elapsed_ms(time_base, fewer) <= elapsed_ms(time_base, more),
{
    match time_base {
        Some(tb) => {
            assert(0 <= fewer * tb.numer * 1000 <= more * tb.numer * 1000) by (nonlinear_arith)
                requires
                    0 <= fewer <= more,
                    tb.numer > 0,
            ;
            lemma_div_is_ordered(0, fewer * tb.numer * 1000, tb.denom as int);
            lemma_div_is_ordered(fewer * tb.numer * 1000, more * tb.numer * 1000, tb.denom as int);
        },
        None => {
            assert(0 <= fewer * SAMPLE_RATE <= more * SAMPLE_RATE) by (nonlinear_arith)
                requires
                    0 <= fewer <= more,
                    SAMPLE_RATE > 0,
            ;
            lemma_div_is_ordered(0, fewer * SAMPLE_RATE, 1000);
            lemma_div_is_ordered(fewer * SAMPLE_RATE, more * SAMPLE_RATE, 1000);
        },
    }
}

/// A packet that starts at most `preroll` ticks before the timestamp a seek
/// landed on is reported at most the duration of `preroll`, and one
/// millisecond of rounding, before the position the seek returned.
pub proof fn lemma_position_after_seek(
    time_base: Option<TimeBase>,
    seeked_ts: u64,
    packet_ts: u64,
    preroll: u64,
)
    requires
        time_base matches Some(tb) ==> tb.valid(),
        seeked_ts <= packet_ts + preroll,
    ensures
        position_ms(time_base, seeked_ts) <= position_ms(time_base, packet_ts) + elapsed_ms(
            time_base,
            preroll as int,
        ) + 1,
{
    let sum = packet_ts + preroll;
    lemma_elapsed_monotonic(time_base, seeked_ts as int, sum);
    lemma_elapsed_monotonic(time_base, 0, packet_ts as int);
    lemma_elapsed_monotonic(time_base, 0, preroll as int);
    lemma_elapsed_splits(time_base, packet_ts as int, preroll as int);
}

/// Rounding down twice loses less than one millisecond against rounding down
/// once.
pub proof fn lemma_elapsed_splits(time_base: Option<TimeBase>, first: int, second: int)
    requires
        time_base matches Some(tb) ==> tb.valid(),
        0 <= first,
        0 <= second,
    ensures
        elapsed_ms(time_base, first + second) <= elapsed_ms(time_base, first) + elapsed_ms(
            time_base,
            second,
        ) + 1,
{
    match time_base {
        Some(tb) => {
            let d = tb.denom as int;
            let a = first * tb.numer * 1000;
            let b = second * tb.numer * 1000;
            assert((first + second) * tb.numer * 1000 == a + b) by (nonlinear_arith)
                requires
                    a == first * tb.numer * 1000,
                    b == second * tb.numer * 1000,
            ;
            lemma_floor_sum(a, b, d);
        },
        None => {
            let a = first * SAMPLE_RATE;
            let b = second * SAMPLE_RATE;
            assert((first + second) * SAMPLE_RATE == a + b) by (nonlinear_arith)
                requires
                    a == first * SAMPLE_RATE,
                    b == second * SAMPLE_RATE,
            ;
            lemma_floor_sum(a, b, 1000);
        },
    }
}

/// The quotient of a sum is at most one more than the sum of the quotients.
proof fn lemma_floor_sum(a: int, b: int, d: int)
    requires
        d > 0,
    ensures
        (a + b) / d <= a / d + b / d + 1,
{
    lemma_fundamental_div_mod(a, d);
    lemma_fundamental_div_mod(b, d);
    lemma_fundamental_div_mod(a + b, d);
    let qa = a / d;
    let qb = b / d;
    let q = (a + b) / d;
    assert(d * q + (a + b) % d == d * qa + a % d + d * qb + b % d);
    assert(q <= qa + qb + 1) by (nonlinear_arith)
        requires
            d > 0,
            d * q + (a + b) % d == d * qa + a % d + d * qb + b % d,
            0 <= (a + b) % d < d,
            0 <= a % d < d,
            0 <= b % d < d,
    ;
}

} // verus!
