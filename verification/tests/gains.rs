use audio_decoder::decoder::SymphoniaDecoder;
use audio_decoder::decoder::TrackParams;
use audio_decoder::normalisation::gains_of;
use audio_decoder::normalisation::GainTag;
use audio_decoder::normalisation::NormalisationData;
use audio_decoder::normalisation::TagKey;
use audio_decoder::normalisation::TagValue;

fn decoder() -> SymphoniaDecoder {
    let track = TrackParams { sample_rate: Some(44100), channels: Some(2), time_base: None };
    SymphoniaDecoder::new(track).unwrap()
}

fn revision(tags: Vec<symphonia::core::meta::Tag>) -> symphonia::core::meta::MetadataRevision {
    let mut builder = symphonia::core::meta::MetadataBuilder::new();
    for tag in tags {
        builder.add_tag(tag);
    }
    builder.metadata()
}

fn float(key: symphonia::core::meta::StandardTagKey, name: &str, number: f64) -> symphonia::core::meta::Tag {
    symphonia::core::meta::Tag::new(Some(key), name, symphonia::core::meta::Value::Float(number))
}

fn track_gain(number: f64) -> symphonia::core::meta::Tag {
    float(symphonia::core::meta::StandardTagKey::ReplayGainTrackGain, "REPLAYGAIN_TRACK_GAIN", number)
}

fn track_peak(number: f64) -> symphonia::core::meta::Tag {
    float(symphonia::core::meta::StandardTagKey::ReplayGainTrackPeak, "REPLAYGAIN_TRACK_PEAK", number)
}

fn album_gain(number: f64) -> symphonia::core::meta::Tag {
    float(symphonia::core::meta::StandardTagKey::ReplayGainAlbumGain, "REPLAYGAIN_ALBUM_GAIN", number)
}

fn album_peak(number: f64) -> symphonia::core::meta::Tag {
    float(symphonia::core::meta::StandardTagKey::ReplayGainAlbumPeak, "REPLAYGAIN_ALBUM_PEAK", number)
}

fn gains(track_gain_db: f64, track_peak: f64, album_gain_db: f64, album_peak: f64) -> NormalisationData {
    NormalisationData {
        track_gain_db: track_gain_db.to_bits(),
        track_peak: track_peak.to_bits(),
        album_gain_db: album_gain_db.to_bits(),
        album_peak: album_peak.to_bits(),
    }
}

fn read(log: &mut symphonia::core::meta::MetadataLog) -> Option<NormalisationData> {
    let mut metadata = log.metadata();
    decoder().normalisation_data(&mut metadata)
}

#[test]
fn no_adjustment_is_all_zero() {
    assert_eq!(NormalisationData::default(), gains(0.0, 0.0, 0.0, 0.0));
    assert_eq!(NormalisationData::default().track_gain_db, 0);
}

#[test]
fn all_four_values_are_read() {
    let mut log = symphonia::core::meta::MetadataLog::default();
    log.push(revision(vec![
        track_gain(-6.5),
        track_peak(0.95),
        album_gain(-7.0),
        album_peak(0.99),
    ]));
    let data = read(&mut log).unwrap();
    assert_eq!(data, gains(-6.5, 0.95, -7.0, 0.99));
    assert_eq!(f64::from_bits(data.track_gain_db), -6.5);
    assert_eq!(f64::from_bits(data.track_peak), 0.95);
    assert_eq!(f64::from_bits(data.album_gain_db), -7.0);
    assert_eq!(f64::from_bits(data.album_peak), 0.99);
}

#[test]
fn missing_album_tags_leave_zeros() {
    let mut log = symphonia::core::meta::MetadataLog::default();
    log.push(revision(vec![track_gain(-6.5), track_peak(0.95)]));
    assert_eq!(read(&mut log), Some(gains(-6.5, 0.95, 0.0, 0.0)));
}

#[test]
fn an_empty_log_has_no_gains() {
    let mut log = symphonia::core::meta::MetadataLog::default();
    assert_eq!(read(&mut log), None);
}

#[test]
fn a_revision_without_tags_has_no_gains() {
    let mut log = symphonia::core::meta::MetadataLog::default();
    log.push(revision(vec![]));
    assert_eq!(read(&mut log), None);
    // Not even where an older revision has some.
    let mut log = symphonia::core::meta::MetadataLog::default();
    log.push(revision(vec![track_gain(-6.5)]));
    log.push(revision(vec![]));
    assert_eq!(read(&mut log), None);
}

#[test]
fn other_tags_alone_give_zeros() {
    let mut log = symphonia::core::meta::MetadataLog::default();
    log.push(revision(vec![
        symphonia::core::meta::Tag::new(Some(symphonia::core::meta::StandardTagKey::Artist), "ARTIST", symphonia::core::meta::Value::String("somebody".to_string())),
        symphonia::core::meta::Tag::new(None, "X-UNKNOWN", symphonia::core::meta::Value::Float(3.5)),
        symphonia::core::meta::Tag::new(Some(symphonia::core::meta::StandardTagKey::Bpm), "BPM", symphonia::core::meta::Value::Float(120.0)),
    ]));
    assert_eq!(read(&mut log), Some(gains(0.0, 0.0, 0.0, 0.0)));
}

#[test]
fn values_that_are_no_floats_are_ignored() {
    let mut log = symphonia::core::meta::MetadataLog::default();
    log.push(revision(vec![
        symphonia::core::meta::Tag::new(
            Some(symphonia::core::meta::StandardTagKey::ReplayGainTrackGain),
            "REPLAYGAIN_TRACK_GAIN",
            symphonia::core::meta::Value::String("-6.5 dB".to_string()),
        ),
        symphonia::core::meta::Tag::new(Some(symphonia::core::meta::StandardTagKey::ReplayGainTrackPeak), "REPLAYGAIN_TRACK_PEAK", symphonia::core::meta::Value::UnsignedInt(1)),
        symphonia::core::meta::Tag::new(Some(symphonia::core::meta::StandardTagKey::ReplayGainAlbumGain), "REPLAYGAIN_ALBUM_GAIN", symphonia::core::meta::Value::SignedInt(-7)),
        symphonia::core::meta::Tag::new(Some(symphonia::core::meta::StandardTagKey::ReplayGainAlbumPeak), "REPLAYGAIN_ALBUM_PEAK", symphonia::core::meta::Value::Flag),
        symphonia::core::meta::Tag::new(Some(symphonia::core::meta::StandardTagKey::ReplayGainAlbumPeak), "REPLAYGAIN_ALBUM_PEAK", symphonia::core::meta::Value::Boolean(true)),
    ]));
    assert_eq!(read(&mut log), Some(gains(0.0, 0.0, 0.0, 0.0)));
}

#[test]
fn the_last_tag_of_a_key_wins() {
    let mut log = symphonia::core::meta::MetadataLog::default();
    log.push(revision(vec![
        track_gain(-1.0),
        album_gain(-2.0),
        track_gain(-3.0),
        symphonia::core::meta::Tag::new(
            Some(symphonia::core::meta::StandardTagKey::ReplayGainTrackGain),
            "REPLAYGAIN_TRACK_GAIN",
            symphonia::core::meta::Value::String("-4.0 dB".to_string()),
        ),
    ]));
    assert_eq!(read(&mut log), Some(gains(-3.0, 0.0, -2.0, 0.0)));
}

#[test]
fn the_newest_revision_is_read() {
    let mut log = symphonia::core::meta::MetadataLog::default();
    log.push(revision(vec![track_gain(-1.0), album_peak(0.5)]));
    log.push(revision(vec![track_gain(-2.0), album_peak(0.6)]));
    log.push(revision(vec![track_gain(-3.0)]));
    assert_eq!(read(&mut log), Some(gains(-3.0, 0.0, 0.0, 0.0)));
}

#[test]
fn older_revisions_are_discarded() {
    let mut log = symphonia::core::meta::MetadataLog::default();
    log.push(revision(vec![track_gain(-1.0)]));
    log.push(revision(vec![track_gain(-2.0)]));
    log.push(revision(vec![track_gain(-3.0), track_peak(0.25)]));
    assert!(!log.metadata().is_latest());
    read(&mut log);
    let metadata = log.metadata();
    assert!(metadata.is_latest());
    let left = metadata.current().unwrap().tags();
    assert_eq!(left.len(), 2);
    assert_eq!(left[0].std_key, Some(symphonia::core::meta::StandardTagKey::ReplayGainTrackGain));
    assert!(matches!(left[0].value, symphonia::core::meta::Value::Float(number) if number == -3.0));
}

#[test]
fn reading_twice_gives_the_same() {
    let mut log = symphonia::core::meta::MetadataLog::default();
    log.push(revision(vec![track_gain(-1.0)]));
    log.push(revision(vec![track_gain(-6.5), track_peak(0.95), album_gain(-7.0), album_peak(0.99)]));
    let first = read(&mut log);
    let second = read(&mut log);
    let third = read(&mut log);
    assert_eq!(first, Some(gains(-6.5, 0.95, -7.0, 0.99)));
    assert_eq!(second, first);
    assert_eq!(third, first);
}

#[test]
fn a_new_revision_is_read_at_the_next_call() {
    let mut log = symphonia::core::meta::MetadataLog::default();
    log.push(revision(vec![track_gain(-1.0)]));
    assert_eq!(read(&mut log), Some(gains(-1.0, 0.0, 0.0, 0.0)));
    log.push(revision(vec![album_gain(-2.0)]));
    assert_eq!(read(&mut log), Some(gains(0.0, 0.0, -2.0, 0.0)));
}

#[test]
fn numbers_are_kept_bit_for_bit() {
    let mut log = symphonia::core::meta::MetadataLog::default();
    log.push(revision(vec![
        track_gain(-0.0),
        track_peak(f64::MAX),
        album_gain(f64::NEG_INFINITY),
        album_peak(f64::MIN_POSITIVE),
    ]));
    let data = read(&mut log).unwrap();
    assert_eq!(data.track_gain_db, 0x8000_0000_0000_0000);
    assert_eq!(data.track_peak, f64::MAX.to_bits());
    assert_eq!(data.album_gain_db, f64::NEG_INFINITY.to_bits());
    assert_eq!(data.album_peak, f64::MIN_POSITIVE.to_bits());
}

#[test]
fn reading_leaves_the_adapter_as_it_is() {
    let mut adapter = decoder();
    let mut log = symphonia::core::meta::MetadataLog::default();
    log.push(revision(vec![track_gain(-1.0)]));
    let mut metadata = log.metadata();
    adapter.normalisation_data(&mut metadata);
    assert_eq!(adapter.time_base(), None);
    assert_eq!(adapter.sample_buffer(), None);
}

fn number(key: TagKey, number: f64) -> GainTag {
    GainTag { key, value: TagValue::Float(number.to_bits()) }
}

#[test]
fn no_tags_give_no_gains() {
    assert_eq!(gains_of(&vec![]), None);
}

#[test]
fn tags_give_the_last_number_of_each_key() {
    let tags = vec![
        number(TagKey::TrackGain, -6.5),
        number(TagKey::TrackPeak, 0.95),
        number(TagKey::AlbumGain, -7.0),
        number(TagKey::AlbumPeak, 0.99),
        number(TagKey::TrackPeak, 0.5),
        GainTag { key: TagKey::AlbumGain, value: TagValue::Other },
        number(TagKey::Other, 1.0),
    ];
    assert_eq!(gains_of(&tags), Some(gains(-6.5, 0.5, -7.0, 0.99)));
    assert_eq!(gains_of(&tags[..1].to_vec()), Some(gains(-6.5, 0.0, 0.0, 0.0)));
    assert_eq!(gains_of(&tags[5..].to_vec()), Some(gains(0.0, 0.0, 0.0, 0.0)));
}
