use audio_decoder::format::probe_hint;
use audio_decoder::format::AudioFileFormat;
use audio_decoder::format::ProbeHint;

#[test]
fn ogg_vorbis_is_hinted_as_ogg() {
    assert_eq!(
        probe_hint(AudioFileFormat::OggVorbis),
        Some(ProbeHint { extension: "ogg", mime_type: "audio/ogg" })
    );
}

#[test]
fn mp3_is_hinted_as_mp3() {
    assert_eq!(
        probe_hint(AudioFileFormat::Mp3),
        Some(ProbeHint { extension: "mp3", mime_type: "audio/mp3" })
    );
}

#[test]
fn flac_is_hinted_as_flac() {
    assert_eq!(
        probe_hint(AudioFileFormat::Flac),
        Some(ProbeHint { extension: "flac", mime_type: "audio/flac" })
    );
}

#[test]
fn other_formats_get_no_hint() {
    assert_eq!(probe_hint(AudioFileFormat::Other), None);
}
