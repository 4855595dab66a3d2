//! ReplayGain values out of a log of metadata revisions.

use vstd::prelude::*;

verus! {

/// What a tag is about, as far as loudness normalisation goes.
#[derive(Clone, Copy, Debug, PartialEq, Eq)]
pub enum TagKey {
    AlbumGain,
    AlbumPeak,
    TrackGain,
    TrackPeak,
    Other,
}

/// What a tag holds, as far as loudness normalisation goes: a floating-point
/// number, kept as its IEEE 754 binary64 bit pattern, or anything else.
#[derive(Clone, Copy, Debug, PartialEq, Eq)]
pub enum TagValue {
    Float(u64),
    Other,
}

/// One tag of a metadata revision.
#[derive(Clone, Copy, Debug, PartialEq, Eq)]
pub struct GainTag {
    pub key: TagKey,
    pub value: TagValue,
}

/// Gains and peaks of a track and of its album. Each field is the IEEE 754
/// binary64 bit pattern of the number; all zero bits stand for `0.0`.
#[derive(Clone, Copy, Debug, PartialEq, Eq)]
pub struct NormalisationData {
    pub track_gain_db: u64,
    pub track_peak: u64,
    pub album_gain_db: u64,
    pub album_peak: u64,
}

impl Default for NormalisationData {
    fn default() -> (data: NormalisationData)
        ensures
            data == zero_gains(),
    {
        NormalisationData { track_gain_db: 0, track_peak: 0, album_gain_db: 0, album_peak: 0 }
    }
}

/// No adjustment: every gain and peak is `0.0`.
pub open spec fn zero_gains() -> NormalisationData {
    NormalisationData { track_gain_db: 0, track_peak: 0, album_gain_db: 0, album_peak: 0 }
}

/// Whether a tag sets the value that `key` names: it has that key and holds a
/// floating-point number.
pub open spec fn sets(tag: GainTag, key: TagKey) -> bool {
    tag.key == key && tag.value is Float
}

/// The number that the last tag setting `key` holds, or zero where no tag
/// sets it.
pub open spec fn last_float(tags: Seq<GainTag>, key: TagKey) -> u64
    decreases tags.len(),
{
    if tags.len() == 0 {
        0
    } else if sets(tags.last(), key) {
        tags.last().value->Float_0
    } else {
        last_float(tags.drop_last(), key)
    }
}

/// The gains and peaks that a sequence of tags gives.
pub open spec fn gains_of_tags(tags: Seq<GainTag>) -> NormalisationData {
    NormalisationData {
        track_gain_db: last_float(tags, TagKey::TrackGain),
        track_peak: last_float(tags, TagKey::TrackPeak),
        album_gain_db: last_float(tags, TagKey::AlbumGain),
        album_peak: last_float(tags, TagKey::AlbumPeak),
    }
}

/// The gains and peaks that a log gives: those of its newest revision, and
/// nothing where the log is empty or its newest revision has no tags.
pub open spec fn gains_of_log(log: Seq<Seq<GainTag>>) -> Option<NormalisationData> {
    if log.len() == 0 || log.last().len() == 0 {
        None
    } else {
        Some(gains_of_tags(log.last()))
    }
}

/// A log after everything but its newest revision is discarded.
pub open spec fn latest_only(log: Seq<Seq<GainTag>>) -> Seq<Seq<GainTag>> {
    if log.len() == 0 {
        log
    } else {
        seq![log.last()]
    }
}

/// Reading the gains discards the older revisions and nothing else, so a
/// second reading finds the log as the first left it and gives the same
/// gains.
pub proof fn lemma_reading_gains_is_idempotent(log: Seq<Seq<GainTag>>)
    ensures
        latest_only(latest_only(log)) == latest_only(log),
        gains_of_log(latest_only(log)) == gains_of_log(log),
{
    if log.len() > 0 {
        assert(latest_only(log).last() == log.last());
    }
}

/// A value is that of the tag which sets it and is followed by no other tag
/// that sets it.
pub proof fn lemma_last_setting_wins(tags: Seq<GainTag>, key: TagKey, at: int)
    requires
        0 <= at < tags.len(),
        sets(tags[at], key),
        forall|later: int| at < later < tags.len() ==> !sets(#[trigger] tags[later], key),
    ensures
        last_float(tags, key) == tags[at].value->Float_0,
    decreases tags.len(),
{
    if at < tags.len() - 1 {
        assert(!sets(tags[tags.len() - 1], key));
        lemma_last_setting_wins(tags.drop_last(), key, at);
    }
}

/// A value that no tag sets is zero.
pub proof fn lemma_unset_is_zero(tags: Seq<GainTag>, key: TagKey)
    requires
        forall|at: int| 0 <= at < tags.len() ==> !sets(#[trigger] tags[at], key),
    ensures
        last_float(tags, key) == 0,
    decreases tags.len(),
{
    if tags.len() > 0 {
        assert(!sets(tags[tags.len() - 1], key));
        lemma_unset_is_zero(tags.drop_last(), key);
    }
}

/// The tag at `index` in the oldest revision of a log, if the log has a
/// revision and the revision a tag there.
pub open spec fn tag_at(log: Seq<Seq<GainTag>>, index: int) -> Option<GainTag> {
    if log.len() > 0 && 0 <= index < log.first().len() {
        Some(log.first()[index])
    } else {
        None
    }
}

/// `symphonia::core::meta::Metadata`, the handle on a demultiplexer's log of
/// metadata revisions. Nothing of it is seen here but through the functions
/// below.
#[verifier::external_type_specification]
#[verifier::external_body]
pub struct ExMetadata<'a>(symphonia::core::meta::Metadata<'a>);

/// The revisions that a metadata log holds, oldest first, each as the
/// sequence of its tags.
pub uninterp spec fn revisions(metadata: symphonia::core::meta::Metadata) -> Seq<Seq<GainTag>>;

/// `Metadata::pop`: where the log holds more than one revision the oldest is
/// dropped and the call says so; otherwise the log is left as it is.
#[verifier::external_body]
fn pop_revision(metadata: &mut symphonia::core::meta::Metadata) -> (popped: bool)
    ensures
        popped == (revisions(*old(metadata)).len() > 1),
        revisions(*final(metadata)) == if popped {
            revisions(*old(metadata)).drop_first()
        } else {
            revisions(*old(metadata))
        },
{
    metadata.pop().is_some()
}

/// `Metadata::current` and `MetadataRevision::tags`: the tag at `index` in the
/// oldest revision that the log holds, or `None` where the log holds no
/// revision or that revision has no tag there. Of a tag's standard key the
/// four ReplayGain keys are told apart, of its value a floating-point number.
#[verifier::external_body]
fn current_tag(metadata: &symphonia::core::meta::Metadata, index: usize) -> (tag: Option<GainTag>)
    ensures
        tag == tag_at(revisions(*metadata), index as int),
{
    let tag = metadata.current()?.tags().get(index)?;
    let key = match tag.std_key {
        Some(symphonia::core::meta::StandardTagKey::ReplayGainAlbumGain) => TagKey::AlbumGain,
        Some(symphonia::core::meta::StandardTagKey::ReplayGainAlbumPeak) => TagKey::AlbumPeak,
        Some(symphonia::core::meta::StandardTagKey::ReplayGainTrackGain) => TagKey::TrackGain,
        Some(symphonia::core::meta::StandardTagKey::ReplayGainTrackPeak) => TagKey::TrackPeak,
        _ => TagKey::Other,
    };
    let value = match tag.value {
        symphonia::core::meta::Value::Float(number) => TagValue::Float(number.to_bits()),
        _ => TagValue::Other,
    };
    Some(GainTag { key, value })
}

/// Takes one tag into account.
fn apply_tag(data: NormalisationData, tag: GainTag) -> (next: NormalisationData)
    ensures
        next.track_gain_db == if sets(tag, TagKey::TrackGain) {
            tag.value->Float_0
        } else {
            data.track_gain_db
        },
        next.track_peak == if sets(tag, TagKey::TrackPeak) {
            tag.value->Float_0
        } else {
            data.track_peak
        },
        next.album_gain_db == if sets(tag, TagKey::AlbumGain) {
            tag.value->Float_0
        } else {
            data.album_gain_db
        },
        next.album_peak == if sets(tag, TagKey::AlbumPeak) {
            tag.value->Float_0
        } else {
            data.album_peak
        },
{
    let mut next = data;
    if let TagValue::Float(number) = tag.value {
        match tag.key {
            TagKey::AlbumGain => next.album_gain_db = number,
            TagKey::AlbumPeak => next.album_peak = number,
            TagKey::TrackGain => next.track_gain_db = number,
            TagKey::TrackPeak => next.track_peak = number,
            TagKey::Other => (),
        }
    }
    next
}

/// The ReplayGain values that the tags of a revision give: none where there
/// are no tags, else for each of the four values the number of the last tag
/// that sets it, and zero where no tag does.
pub fn gains_of(tags: &Vec<GainTag>) -> (gains: Option<NormalisationData>)
    ensures
        gains == if tags@.len() == 0 {
            None
        } else {
            Some(gains_of_tags(tags@))
        },
{
    if tags.len() == 0 {
        return None;
    }
    let mut data = NormalisationData::default();
    let mut index: usize = 0;
    while index < tags.len()
        invariant
            index <= tags@.len(),
            data == gains_of_tags(tags@.take(index as int)),
        decreases tags@.len() - index,
    {
        data = apply_tag(data, tags[index]);
        proof {
            assert(tags@.take(index + 1).drop_last() =~= tags@.take(index as int));
        }
        index = index + 1;
    }
    assert(tags@.take(tags@.len() as int) =~= tags@);
    Some(data)
}

/// The tags of the oldest revision that a log holds; none where it holds no
/// revision.
fn current_tags(metadata: &symphonia::core::meta::Metadata) -> (tags: Vec<GainTag>)
    ensures
        tags@ == if revisions(*metadata).len() > 0 {
            revisions(*metadata).first()
        } else {
            Seq::<GainTag>::empty()
        },
{
    let ghost held = if revisions(*metadata).len() > 0 {
        revisions(*metadata).first()
    } else {
        Seq::<GainTag>::empty()
    };
    let mut tags: Vec<GainTag> = Vec::new();
    loop
        invariant
            held == if revisions(*metadata).len() > 0 {
                revisions(*metadata).first()
            } else {
                Seq::<GainTag>::empty()
            },
            tags@.len() <= held.len(),
            tags@ == held.take(tags@.len() as int),
        ensures
            tags@ == held,
        decreases held.len() - tags@.len(),
    {
        match current_tag(metadata, tags.len()) {
            Some(tag) => {
                let ghost before = tags@;
                tags.push(tag);
                assert(tags@ =~= held.take(before.len() as int + 1));
            },
            None => {
                assert(held.take(tags@.len() as int) =~= held);
                break ;
            },
        }
    }
    tags
}

/// Discards every revision but the newest and reads the ReplayGain values of
/// that one.
pub(crate) fn latest_gains(metadata: &mut symphonia::core::meta::Metadata) -> (gains: Option<
    NormalisationData,
>)
    ensures
        revisions(*final(metadata)) == latest_only(revisions(*old(metadata))),
        gains == gains_of_log(revisions(*old(metadata))),
{
    let ghost initial = revisions(*metadata);
    loop
        invariant
            latest_only(revisions(*metadata)) == latest_only(initial),
            gains_of_log(revisions(*metadata)) == gains_of_log(initial),
        ensures
            revisions(*metadata) == latest_only(initial),
            gains_of_log(revisions(*metadata)) == gains_of_log(initial),
        decreases revisions(*metadata).len(),
    {
        let ghost before = revisions(*metadata);
        if !pop_revision(metadata) {
            assert(before =~= latest_only(before));
            break ;
        }
        assert(before.drop_first().last() == before.last());
    }
    let tags = current_tags(metadata);
    gains_of(&tags)
}

} // verus!
