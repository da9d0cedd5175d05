//! A playable file and what is known of it.

use vstd::prelude::*;
use crate::keys::StandardTagKey;
use crate::loader::{first_audio, first_audio_track, TrackInfo};
use crate::tags::{OtherTags, StandardTags};
use crate::time::PlayTime;
use crate::value::{clone_strings, Tag, TagModel, Value, ValueModel};

verus! {

/// A gain, held as the bit pattern of a 32-bit IEEE 754 number. The gain
/// of a song is a linear amplitude multiplier.
#[derive(Clone, Copy, Debug, PartialEq, Eq, Structural)]
pub struct Gain {
    pub bits: u32,
}

impl Gain {
    /// The bit pattern of the multiplier one: samples pass unchanged.
    pub open spec fn unity_bits() -> u32 {
        0x3f80_0000
    }

    /// The gain that leaves samples as they are.
    pub fn unity() -> (gain: Gain)
        ensures
            gain.bits == Gain::unity_bits(),
    {
        Gain { bits: 0x3f80_0000 }
    }

    /// The gain with the given bit pattern.
    pub fn from_bits(bits: u32) -> (gain: Gain)
        ensures
            gain.bits == bits,
    {
        Gain { bits }
    }

    /// The bit pattern of the gain.
    pub fn to_bits(&self) -> (bits: u32)
        ensures
            bits == self.bits,
    {
        self.bits
    }
}

/// The model of a [`Song`].
pub struct SongModel {
    pub path: Seq<Seq<char>>,
    pub duration: PlayTime,
    pub gain_factor: Gain,
    pub standard_tags: Map<StandardTagKey, ValueModel>,
    pub other_tags: Map<Seq<char>, ValueModel>,
}

impl SongModel {
    /// The text under the standard key `key`, if the song has that key with
    /// a text value.
    pub open spec fn tag_text(self, key: StandardTagKey) -> Option<Seq<char>> {
        if self.standard_tags.contains_key(key) {
            match self.standard_tags[key] {
                ValueModel::Text(s) => Some(s),
                _ => None,
            }
        } else {
            None
        }
    }
}

/// A playable file: where it is (the components of its path), how long it
/// lasts, the gain to play it at, and its tags.
#[derive(Debug)]
pub struct Song {
    pub path: Vec<String>,
    pub duration: PlayTime,
    pub gain_factor: Gain,
    pub standard_tags: StandardTags,
    pub other_tags: OtherTags,
}

impl View for Song {
    type V = SongModel;

    open spec fn view(&self) -> SongModel {
        SongModel {
            path: self.path.deep_view(),
            duration: self.duration,
            gain_factor: self.gain_factor,
            standard_tags: self.standard_tags@,
            other_tags: self.other_tags@,
        }
    }
}

impl DeepView for Song {
    type V = SongModel;

    open spec fn deep_view(&self) -> SongModel {
        self@
    }
}

impl Clone for Song {
    fn clone(&self) -> (copy: Self)
        ensures
            copy@ == self@,
    {
        Song {
            path: clone_strings(&self.path),
            duration: self.duration,
            gain_factor: self.gain_factor,
            standard_tags: self.standard_tags.clone(),
            other_tags: self.other_tags.clone(),
        }
    }
}

/// Why a file could not be made into a song.
#[derive(Clone, Copy, Debug, PartialEq, Eq, Structural)]
pub enum SongError {
    /// The file has no track that holds audio.
    NoAudioTrack,
    /// The track does not say how long a tick of its clock is.
    NoTimeBase,
    /// The track does not say how many ticks it lasts.
    NoFrameCount,
    /// The length of a tick has a zero numerator or denominator.
    InvalidTimeBase,
    /// The track lasts longer than a span of time can say.
    TooLong,
}

/// The mapping by standard key that a list of tags gives: of the tags that
/// have a standard key, and of several with the same key the last.
pub open spec fn standard_of(tags: Seq<TagModel>) -> Map<StandardTagKey, ValueModel>
    decreases tags.len(),
{
    if tags.len() == 0 {
        Map::empty()
    } else {
        let before = standard_of(tags.drop_last());
        match tags.last().std_key {
            Some(key) => before.insert(key, tags.last().value),
            None => before,
        }
    }
}

/// The mapping by key text that a list of tags gives: of the tags that have
/// no standard key, and of several with the same key text the last.
pub open spec fn other_of(tags: Seq<TagModel>) -> Map<Seq<char>, ValueModel>
    decreases tags.len(),
{
    if tags.len() == 0 {
        Map::empty()
    } else {
        let before = other_of(tags.drop_last());
        match tags.last().std_key {
            Some(_) => before,
            None => before.insert(tags.last().key, tags.last().value),
        }
    }
}

/// Sorts the tags of a file into the two mappings of a song.
pub fn partition_tags(tags: &Vec<Tag>) -> (maps: (StandardTags, OtherTags))
    ensures
        maps.0@ == standard_of(tags.deep_view()),
        maps.1@ == other_of(tags.deep_view()),
{
    let mut standard = StandardTags::new();
    let mut other = OtherTags::new();
    let ghost all = tags.deep_view();
    let mut i: usize = 0;
    assert(all.take(0) =~= Seq::<TagModel>::empty());
    while i < tags.len()
        invariant
            i <= tags.len(),
            all == tags.deep_view(),
            standard@ == standard_of(all.take(i as int)),
            other@ == other_of(all.take(i as int)),
        decreases tags.len() - i,
    {
        let tag = &tags[i];
        proof {
            assert(all.take(i + 1).drop_last() =~= all.take(i as int));
            assert(all.take(i + 1).last() == tag@);
        }
        match tag.std_key {
            Some(key) => {
                standard = standard.insert(key, tag.value.clone());
            },
            None => {
                other = other.insert(tag.key.clone(), tag.value.clone());
            },
        }
        i += 1;
    }
    assert(all.take(tags.len() as int) =~= all);
    (standard, other)
}

/// Whether a text ends in the unit of a gain, a space and `dB`.
pub open spec fn ends_in_db(text: Seq<char>) -> bool {
    &&& text.len() >= 3
    &&& text[text.len() - 3] == ' '
    &&& text[text.len() - 2] == 'd'
    &&& text[text.len() - 1] == 'B'
}

/// A text without the unit of a gain at its end, if it has one there.
pub open spec fn without_db(text: Seq<char>) -> Seq<char> {
    if ends_in_db(text) {
        text.take(text.len() - 3)
    } else {
        text
    }
}

/// The number part of a song's gain tag: the text under the key for the
/// track's replay gain, without the unit. Nothing if the tag is missing or
/// is not text.
pub open spec fn gain_text(standard: Map<StandardTagKey, ValueModel>) -> Option<Seq<char>> {
    if standard.contains_key(StandardTagKey::ReplayGainTrackGain) {
        match standard[StandardTagKey::ReplayGainTrackGain] {
            ValueModel::Text(text) => Some(without_db(text)),
            _ => None,
        }
    } else {
        None
    }
}

/// Reads the number part of the gain tag: a decibel value as text, to be
/// read as a number and turned into a linear gain.
pub fn replay_gain_text(standard: &StandardTags) -> (text: Option<String>)
    ensures
        text.deep_view() == gain_text(standard@),
{
    match standard.get(StandardTagKey::ReplayGainTrackGain) {
        Some(Value::String(s)) => {
            let text = s.as_str();
            let n: usize = text.unicode_len();
            if n >= 3 && text.get_char(n - 3) == ' ' && text.get_char(n - 2) == 'd'
                && text.get_char(n - 1) == 'B' {
                let number = text.substring_char(0, n - 3).to_owned();
                assert(number@ =~= without_db(s@));
                Some(number)
            } else {
                Some(text.to_owned())
            }
        },
        _ => None,
    }
}

/// How long a track lasts, in nanoseconds rounded down: its ticks times the
/// length of a tick. An error where the track lacks either, where the length
/// of a tick is not a positive ratio, or where the time is too long.
pub open spec fn track_nanos(track: TrackInfo) -> Result<nat, SongError> {
    match (track.time_base, track.n_frames) {
        (None, _) => Err(SongError::NoTimeBase),
        (Some(_), None) => Err(SongError::NoFrameCount),
        (Some(base), Some(ticks)) => if base.numer == 0 || base.denom == 0 {
            Err(SongError::InvalidTimeBase)
        } else if (ticks * base.numer) / (base.denom as int) > u64::MAX {
            Err(SongError::TooLong)
        } else {
            Ok(((ticks * base.numer * 1_000_000_000) / (base.denom as int)) as nat)
        },
    }
}

/// How long the song of a file with these tracks lasts: as long as its
/// first track that holds audio.
pub open spec fn song_nanos(tracks: Seq<TrackInfo>) -> Result<nat, SongError> {
    match first_audio(tracks) {
        Some(i) => track_nanos(tracks[i]),
        None => Err(SongError::NoAudioTrack),
    }
}

/// How long a track lasts.
pub fn track_duration(track: &TrackInfo) -> (duration: Result<PlayTime, SongError>)
    ensures
        match duration {
            Ok(time) => track_nanos(*track) == Ok::<nat, SongError>(time.total_nanos()),
            Err(e) => track_nanos(*track) == Err::<nat, SongError>(e),
        },
{
    let base = match track.time_base {
        Some(base) => base,
        None => {
            return Err(SongError::NoTimeBase);
        },
    };
    let ticks: u64 = match track.n_frames {
        Some(ticks) => ticks,
        None => {
            return Err(SongError::NoFrameCount);
        },
    };
    if base.numer == 0 || base.denom == 0 {
        return Err(SongError::InvalidTimeBase);
    }
    match PlayTime::from_ticks(ticks, base.numer, base.denom) {
        Some(time) => Ok(time),
        None => Err(SongError::TooLong),
    }
}

impl Song {
    /// The text under the standard key `key`; nothing if the song lacks the
    /// key or holds a value there that is not text.
    pub fn tag_string(&self, key: StandardTagKey) -> (text: Option<&str>)
        ensures
            match text {
                Some(s) => self@.tag_text(key) == Some(s@),
                None => self@.tag_text(key) is None,
            },
    {
        match self.standard_tags.get(key) {
            Some(Value::String(s)) => Some(s.as_str()),
            _ => None,
        }
    }
    /// Makes the song of a file from what its container says: the song
    /// lasts as long as the first track that holds audio, carries the tags
    /// given, and plays at `gain`, or as it is where no gain is given.
    pub fn assemble(
        path: Vec<String>,
        tracks: &Vec<TrackInfo>,
        standard_tags: StandardTags,
        other_tags: OtherTags,
        gain: Option<Gain>,
    ) -> (song: Result<Song, SongError>)
        ensures
            match song {
                Ok(s) => {
                    &&& song_nanos(tracks@) == Ok::<nat, SongError>(s@.duration.total_nanos())
                    &&& s@.path == path.deep_view()
                    &&& s@.standard_tags == standard_tags@
                    &&& s@.other_tags == other_tags@
                    &&& s@.gain_factor == match gain {
                        Some(g) => g,
                        None => Gain { bits: Gain::unity_bits() },
                    }
                },
                Err(e) => song_nanos(tracks@) == Err::<nat, SongError>(e),
            },
    {
        let at: usize = match first_audio_track(tracks) {
            Ok(at) => at,
            Err(_) => {
                return Err(SongError::NoAudioTrack);
            },
        };
        let duration = match track_duration(&tracks[at]) {
            Ok(duration) => duration,
            Err(e) => {
                return Err(e);
            },
        };
        let gain_factor = match gain {
            Some(g) => g,
            None => Gain::unity(),
        };
        Ok(Song { path, duration, gain_factor, standard_tags, other_tags })
    }
}

} // verus!
