//! File formats, and what the prober is told about each.

use vstd::prelude::*;

verus! {

/// The container families that a file is said to belong to before its bytes
/// are looked at.
#[derive(Clone, Copy, Debug, PartialEq, Eq)]
pub enum AudioFileFormat {
    OggVorbis,
    Mp3,
    Flac,
    Other,
}

/// What the prober is told of a file: an extension and a media type. It is
/// advice only; the file's content decides.
#[derive(Clone, Copy, Debug, PartialEq, Eq)]
pub struct ProbeHint {
    pub extension: &'static str,
    pub mime_type: &'static str,
}

/// Extension and media type that go with a format, if any do.
pub open spec fn hint_texts(format: AudioFileFormat) -> Option<(Seq<char>, Seq<char>)> {
    match format {
        AudioFileFormat::OggVorbis => Some(("ogg"@, "audio/ogg"@)),
        AudioFileFormat::Mp3 => Some(("mp3"@, "audio/mp3"@)),
        AudioFileFormat::Flac => Some(("flac"@, "audio/flac"@)),
        AudioFileFormat::Other => None,
    }
}

/// The hint for a format: one for each of the three known families, none for
/// any other.
pub fn probe_hint(format: AudioFileFormat) -> (hint: Option<ProbeHint>)
    ensures
        hint is Some <==> format != AudioFileFormat::Other,
        hint matches Some(h) ==> hint_texts(format) == Some((h.extension@, h.mime_type@)),
{
    match format {
        AudioFileFormat::OggVorbis => Some(ProbeHint { extension: "ogg", mime_type: "audio/ogg" }),
        AudioFileFormat::Mp3 => Some(ProbeHint { extension: "mp3", mime_type: "audio/mp3" }),
        AudioFileFormat::Flac => Some(ProbeHint { extension: "flac", mime_type: "audio/flac" }),
        AudioFileFormat::Other => None,
    }
}

} // verus!
