//! The loader's decisions: which track of a file to decode, what to make of
//! each packet read, and why a load fails.

use vstd::prelude::*;
use crate::song::Song;
use crate::text::same_text;
use crate::value::Metadata;

verus! {

/// Why a song could not be loaded.
#[derive(Clone, Copy, Debug, PartialEq, Eq, Structural)]
pub enum LoadError {
    /// The file could not be opened or read.
    Io,
    /// The container format was not recognised.
    Probe,
    /// The file has no track that can be decoded.
    NoAudioTrack,
    /// No decoder is available for the track's codec.
    Codec,
    /// The track does not say its sample rate.
    NoSampleRate,
    /// The track does not say its channels.
    NoChannels,
}

/// Why a file could not be probed: a failure of input is one, and anything
/// else means that no container format was recognised.
pub fn probe_failure(io: bool) -> (error: LoadError)
    ensures
        error == if io {
            LoadError::Io
        } else {
            LoadError::Probe
        },
{
    if io {
        LoadError::Io
    } else {
        LoadError::Probe
    }
}

/// A rational number of seconds: the length of one tick of a track's clock.
#[derive(Clone, Copy, Debug, PartialEq, Eq, Structural)]
pub struct TimeBase {
    pub numer: u32,
    pub denom: u32,
}

/// The sample rate of a decoded stream, in hertz, and its channels, as a
/// mask with one bit for each channel position.
#[derive(Clone, Copy, Debug, PartialEq, Eq, Structural)]
pub struct SignalSpec {
    pub rate: u32,
    pub channels: u32,
}

/// What a container says of one of its tracks.
#[derive(Clone, Copy, Debug, PartialEq, Eq, Structural)]
pub struct TrackInfo {
    /// The number that the track's packets carry.
    pub id: u32,
    /// Whether the track names a codec, that is, holds audio.
    pub has_codec: bool,
    pub sample_rate: Option<u32>,
    /// The channel mask.
    pub channels: Option<u32>,
    pub time_base: Option<TimeBase>,
    /// The length of the track in ticks of its clock.
    pub n_frames: Option<u64>,
}

/// The place of the first track in `tracks` that holds audio, if any does.
pub open spec fn first_audio(tracks: Seq<TrackInfo>) -> Option<int> {
    if exists|i: int| 0 <= i < tracks.len() && tracks[i].has_codec {
        Some(
            choose|i: int|
                0 <= i < tracks.len() && tracks[i].has_codec && forall|j: int|
                    0 <= j < i ==> !tracks[j].has_codec,
        )
    } else {
        None
    }
}

/// Picks the track to decode: the first that holds audio.
pub fn first_audio_track(tracks: &Vec<TrackInfo>) -> (track: Result<usize, LoadError>)
    ensures
        match track {
            Ok(i) => i < tracks.len() && tracks[i as int].has_codec && (forall|j: int|
                0 <= j < i ==> !tracks[j].has_codec) && first_audio(tracks@) == Some(i as int),
            Err(e) => e == LoadError::NoAudioTrack && first_audio(tracks@) is None && forall|
                j: int,
            | 0 <= j < tracks.len() ==> !tracks[j].has_codec,
        },
{
    let mut i: usize = 0;
    while i < tracks.len()
        invariant
            i <= tracks.len(),
            forall|j: int| 0 <= j < i ==> !tracks[j].has_codec,
        decreases tracks.len() - i,
    {
        if tracks[i].has_codec {
            proof {
                let w = i as int;
                let c = choose|k: int|
                    0 <= k < tracks.len() && tracks[k].has_codec && forall|j: int|
                        0 <= j < k ==> !tracks[j].has_codec;
                assert(0 <= w < tracks.len() && tracks[w].has_codec && forall|j: int|
                    0 <= j < w ==> !tracks[j].has_codec);
                if c < w {
                    assert(!tracks[c].has_codec);
                }
                if w < c {
                    assert(!tracks[w].has_codec);
                }
            }
            return Ok(i);
        }
        i += 1;
    }
    Err(LoadError::NoAudioTrack)
}

/// What reading the next packet of a file gave.
#[derive(Clone, Copy, Debug, PartialEq, Eq, Structural)]
pub enum PacketRead {
    /// A packet of the track with this number.
    Packet { track_id: u32 },
    /// The file has no more packets.
    EndOfStream,
    /// The read failed.
    Failed,
}

/// What a read that failed amounts to: the clean end of the stream where
/// the failure is one of input and says so, and a failure otherwise.
pub open spec fn failure_read(io: bool, message: Seq<char>) -> PacketRead {
    if io && message == "end of stream"@ {
        PacketRead::EndOfStream
    } else {
        PacketRead::Failed
    }
}

/// Tells the end of a stream from a failure, given whether the error is one
/// of input and what it says.
pub fn read_failure(io: bool, message: &str) -> (read: PacketRead)
    ensures
        read == failure_read(io, message@),
{
    if io && same_text(message, "end of stream") {
        PacketRead::EndOfStream
    } else {
        PacketRead::Failed
    }
}

/// What to do with what was read.
#[derive(Clone, Copy, Debug, PartialEq, Eq, Structural)]
pub enum PacketPlan {
    /// Decode the packet: it belongs to the chosen track.
    Decode,
    /// Pass over the packet: it belongs to another track.
    Ignore,
    /// Report the clean end of the stream.
    End,
    /// Report the failure.
    Fail,
}

/// One pull from the loader: decoded samples, or why there are none.
#[derive(Debug)]
pub enum Pulled<T> {
    /// The samples of one packet, interleaved.
    Chunk(Vec<T>),
    /// The packet belonged to a track that is not played.
    Skipped,
    /// The stream ended cleanly.
    EndOfStream,
    /// Reading or decoding failed.
    Failed,
}

/// What one pull gives, from what was planned for the packet read and, for
/// a packet to decode, the samples that decoding gave, if it gave any: the
/// samples of a decoded packet; nothing for a packet passed over; the end of
/// the stream; and a failure where the read failed or the packet could not
/// be decoded.
pub fn pulled<T>(plan: PacketPlan, decoded: Option<Vec<T>>) -> (pull: Pulled<T>)
    ensures
        match (plan, decoded) {
            (PacketPlan::Decode, Some(samples)) => pull matches Pulled::Chunk(chunk) && chunk
                == samples,
            (PacketPlan::Decode, None) => pull is Failed,
            (PacketPlan::Ignore, _) => pull is Skipped,
            (PacketPlan::End, _) => pull is EndOfStream,
            (PacketPlan::Fail, _) => pull is Failed,
        },
{
    match plan {
        PacketPlan::Decode => match decoded {
            Some(samples) => Pulled::Chunk(samples),
            None => Pulled::Failed,
        },
        PacketPlan::Ignore => Pulled::Skipped,
        PacketPlan::End => Pulled::EndOfStream,
        PacketPlan::Fail => Pulled::Failed,
    }
}

/// The model of a [`LoadedSong`].
pub struct LoadedSongModel {
    pub song: crate::song::SongModel,
    pub metadata: Option<Seq<crate::value::VisualModel>>,
    pub signal_spec: SignalSpec,
    pub track_id: u32,
}

/// A song ready to be decoded: the song, what its container says of it, the
/// shape of its decoded signal, and the track that is decoded.
#[derive(Debug)]
pub struct LoadedSong {
    pub song: Song,
    pub metadata: Option<Metadata>,
    pub signal_spec: SignalSpec,
    pub track_id: u32,
}

impl View for LoadedSong {
    type V = LoadedSongModel;

    open spec fn view(&self) -> LoadedSongModel {
        LoadedSongModel {
            song: self.song@,
            metadata: self.metadata.deep_view(),
            signal_spec: self.signal_spec,
            track_id: self.track_id,
        }
    }
}

/// What loading makes of a track for which a decoder is (or is not) at hand:
/// the signal's shape, or the first thing that is missing.
pub open spec fn signal_of(track: TrackInfo, has_decoder: bool) -> Result<SignalSpec, LoadError> {
    if !has_decoder {
        Err(LoadError::Codec)
    } else if track.sample_rate is None {
        Err(LoadError::NoSampleRate)
    } else if track.channels is None {
        Err(LoadError::NoChannels)
    } else {
        Ok(SignalSpec { rate: track.sample_rate->Some_0, channels: track.channels->Some_0 })
    }
}

impl LoadedSong {
    /// Joins a song with the track chosen for it. Fails where no decoder is
    /// at hand for the track, or the track lacks its sample rate or its
    /// channels.
    pub fn load(song: Song, metadata: Option<Metadata>, track: &TrackInfo, has_decoder: bool) -> (loaded:
        Result<LoadedSong, LoadError>)
        ensures
            match loaded {
                Ok(l) => signal_of(*track, has_decoder) == Ok::<SignalSpec, LoadError>(
                    l.signal_spec,
                ) && l@ == (LoadedSongModel {
                    song: song@,
                    metadata: metadata.deep_view(),
                    signal_spec: l.signal_spec,
                    track_id: track.id,
                }),
                Err(e) => signal_of(*track, has_decoder) == Err::<SignalSpec, LoadError>(e),
            },
    {
        if !has_decoder {
            return Err(LoadError::Codec);
        }
        let rate: u32 = match track.sample_rate {
            Some(rate) => rate,
            None => {
                return Err(LoadError::NoSampleRate);
            },
        };
        let channels: u32 = match track.channels {
            Some(channels) => channels,
            None => {
                return Err(LoadError::NoChannels);
            },
        };
        Ok(LoadedSong { song, metadata, signal_spec: SignalSpec { rate, channels }, track_id: track.id })
    }

    /// What to do with what the next read gave: decode a packet of the
    /// chosen track, pass over one of another track, and report an end or a
    /// failure as such.
    pub fn plan(&self, read: PacketRead) -> (plan: PacketPlan)
        ensures
            plan == packet_plan(self.track_id, read),
    {
        match read {
            PacketRead::Packet { track_id } => if track_id == self.track_id {
                PacketPlan::Decode
            } else {
                PacketPlan::Ignore
            },
            PacketRead::EndOfStream => PacketPlan::End,
            PacketRead::Failed => PacketPlan::Fail,
        }
    }
}

/// What to do with a read when the track numbered `chosen` is decoded.
pub open spec fn packet_plan(chosen: u32, read: PacketRead) -> PacketPlan {
    match read {
        PacketRead::Packet { track_id } => if track_id == chosen {
            PacketPlan::Decode
        } else {
            PacketPlan::Ignore
        },
        PacketRead::EndOfStream => PacketPlan::End,
        PacketRead::Failed => PacketPlan::Fail,
    }
}

} // verus!
