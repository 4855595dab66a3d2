//! Faults of the demultiplexer and the codec, and the errors the adapter
//! reports for them.

use vstd::prelude::*;

verus! {

/// What went wrong below the adapter, as far as the adapter tells faults
/// apart.
#[derive(Clone, Copy, Debug, PartialEq, Eq)]
pub enum FaultKind {
    /// An I/O error that says the byte source ended.
    EndOfStream,
    /// Any other I/O error.
    Io,
    /// State was invalidated and has to be set up again.
    ResetRequired,
    /// Malformed data, an unsupported feature, a limit, a failed seek.
    Other,
}

/// A fault of the demultiplexer or of the codec, with its own description.
#[derive(Debug, PartialEq, Eq)]
pub struct StreamFault {
    pub kind: FaultKind,
    pub message: String,
}

/// The kinds of error that the adapter reports.
#[derive(Clone, Copy, Debug, PartialEq, Eq)]
pub enum ErrorKind {
    /// The byte stream is no container that is known.
    ProbeFailure,
    /// The container has no default track.
    TrackMissing,
    /// The track's codec is not supported, or its parameters are unusable.
    CodecInitFailure,
    /// Sample rate or channel count is not what the pipeline plays.
    UnsupportedFormat,
    /// The byte source failed, other than by ending.
    IoFailure,
    /// Demultiplexing or decoding failed.
    DecodeFailure,
    /// The codec asks to be set up again from the next track on.
    ResetRequired,
}

/// An error of the adapter: its kind, and a short diagnostic message.
#[derive(Debug, PartialEq, Eq)]
pub struct DecoderError {
    pub kind: ErrorKind,
    pub message: String,
}

/// The kind under which a fault is reported where nothing is known but the
/// fault: an I/O fault as such, a demand for a reset as such, the rest as a
/// failure to decode.
pub open spec fn surfaced_kind(kind: FaultKind) -> ErrorKind {
    match kind {
        FaultKind::EndOfStream => ErrorKind::IoFailure,
        FaultKind::Io => ErrorKind::IoFailure,
        FaultKind::ResetRequired => ErrorKind::ResetRequired,
        FaultKind::Other => ErrorKind::DecodeFailure,
    }
}

/// The kind under which a fault of the codec is reported: a demand for a
/// reset as such, everything else as a failure to decode.
pub open spec fn decode_kind(kind: FaultKind) -> ErrorKind {
    if kind == FaultKind::ResetRequired {
        ErrorKind::ResetRequired
    } else {
        ErrorKind::DecodeFailure
    }
}

impl DecoderError {
    /// An error of the given kind that keeps the fault's description.
    fn of_fault(kind: ErrorKind, fault: StreamFault) -> (error: DecoderError)
        ensures
            error.kind == kind,
            error.message == fault.message,
    {
        DecoderError { kind, message: fault.message }
    }

    /// An error of the given kind with a message of the adapter's own.
    pub(crate) fn with_text(kind: ErrorKind, text: &str) -> (error: DecoderError)
        ensures
            error.kind == kind,
            error.message@ == text@,
    {
        DecoderError { kind, message: String::from_str(text) }
    }

    /// The error for a byte stream in which the prober found no container.
    pub fn probe_failure(fault: StreamFault) -> (error: DecoderError)
        ensures
            error.kind == ErrorKind::ProbeFailure,
            error.message == fault.message,
    {
        DecoderError::of_fault(ErrorKind::ProbeFailure, fault)
    }

    /// The error for a container without a default track.
    pub fn track_missing() -> (error: DecoderError)
        ensures
            error.kind == ErrorKind::TrackMissing,
            error.message@ == "Could not retrieve default track"@,
    {
        DecoderError::with_text(ErrorKind::TrackMissing, "Could not retrieve default track")
    }

    /// The error for a default track that no codec could be made for.
    pub fn codec_init_failure(fault: StreamFault) -> (error: DecoderError)
        ensures
            error.kind == ErrorKind::CodecInitFailure,
            error.message == fault.message,
    {
        DecoderError::of_fault(ErrorKind::CodecInitFailure, fault)
    }

    /// The error for a packet that the codec did not decode. A demand for a
    /// reset is handed on as such: it is for the caller to set up a new
    /// adapter.
    pub fn decode_failure(fault: StreamFault) -> (error: DecoderError)
        ensures
            error.kind == decode_kind(fault.kind),
            error.message == fault.message,
    {
        let kind = match fault.kind {
            FaultKind::ResetRequired => ErrorKind::ResetRequired,
            _ => ErrorKind::DecodeFailure,
        };
        DecoderError::of_fault(kind, fault)
    }

    /// Reports a fault as it is, by the kind that the fault has.
    pub fn surfaced(fault: StreamFault) -> (error: DecoderError)
        ensures
            error.kind == surfaced_kind(fault.kind),
            error.message == fault.message,
    {
        let kind = match fault.kind {
            FaultKind::EndOfStream => ErrorKind::IoFailure,
            FaultKind::Io => ErrorKind::IoFailure,
            FaultKind::ResetRequired => ErrorKind::ResetRequired,
            FaultKind::Other => ErrorKind::DecodeFailure,
        };
        DecoderError::of_fault(kind, fault)
    }
}

/// The character for a decimal digit.
pub open spec fn digit(d: int) -> char {
    if d == 0 {
        '0'
    } else if d == 1 {
        '1'
    } else if d == 2 {
        '2'
    } else if d == 3 {
        '3'
    } else if d == 4 {
        '4'
    } else if d == 5 {
        '5'
    } else if d == 6 {
        '6'
    } else if d == 7 {
        '7'
    } else if d == 8 {
        '8'
    } else {
        '9'
    }
}

/// A number written in decimal, without leading zeros.
pub open spec fn decimal(n: nat) -> Seq<char>
    decreases n,
{
    if n < 10 {
        seq![digit(n as int)]
    } else {
        decimal(n / 10).push(digit((n % 10) as int))
    }
}

/// The text of one decimal digit.
fn digit_text(d: u64) -> (text: &'static str)
    requires
        d < 10,
    ensures
        text@ == seq![digit(d as int)],
{
    proof {
        reveal_strlit("0");
        reveal_strlit("1");
        reveal_strlit("2");
        reveal_strlit("3");
        reveal_strlit("4");
        reveal_strlit("5");
        reveal_strlit("6");
        reveal_strlit("7");
        reveal_strlit("8");
        reveal_strlit("9");
    }
    let text = if d == 0 {
        "0"
    } else if d == 1 {
        "1"
    } else if d == 2 {
        "2"
    } else if d == 3 {
        "3"
    } else if d == 4 {
        "4"
    } else if d == 5 {
        "5"
    } else if d == 6 {
        "6"
    } else if d == 7 {
        "7"
    } else if d == 8 {
        "8"
    } else {
        "9"
    };
    assert(text@ =~= seq![digit(d as int)]);
    text
}

/// Appends a number in decimal to a text.
pub(crate) fn append_decimal(text: String, n: u64) -> (out: String)
    ensures
        out@ == text@ + decimal(n as nat),
    decreases n,
{
    if n < 10 {
        let out = text.concat(digit_text(n));
        assert(out@ =~= text@ + decimal(n as nat));
        out
    } else {
        let head = append_decimal(text, n / 10);
        let out = head.concat(digit_text(n % 10));
        assert(out@ =~= text@ + decimal(n as nat));
        out
    }
}

} // verus!
