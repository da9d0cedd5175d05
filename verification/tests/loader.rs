use ramp::loader::{
    first_audio_track, probe_failure, pulled, read_failure, LoadError, LoadedSong, PacketPlan, PacketRead, Pulled,
    SignalSpec, TimeBase, TrackInfo,
};
use ramp::song::{Gain, Song};
use ramp::tags::{OtherTags, StandardTags};
use ramp::time::PlayTime;
use ramp::value::Metadata;

fn track(id: u32, has_codec: bool) -> TrackInfo {
    TrackInfo {
        id,
        has_codec,
        sample_rate: Some(44_100),
        channels: Some(0b11),
        time_base: Some(TimeBase { numer: 1, denom: 44_100 }),
        n_frames: Some(441_000),
    }
}

fn a_song() -> Song {
    Song {
        path: vec!["/".to_string(), "a.flac".to_string()],
        duration: PlayTime::from_secs(10),
        gain_factor: Gain::unity(),
        standard_tags: StandardTags::new(),
        other_tags: OtherTags::new(),
    }
}

#[test]
fn first_audio_track_is_the_first_with_a_codec() {
    let tracks = vec![track(7, false), track(8, true), track(9, true)];
    assert_eq!(first_audio_track(&tracks), Ok(1));
    assert_eq!(first_audio_track(&[track(1, true)].to_vec()), Ok(0));
}

#[test]
fn no_audio_track_where_none_has_a_codec() {
    assert_eq!(first_audio_track(&Vec::new()), Err(LoadError::NoAudioTrack));
    let tracks = vec![track(1, false), track(2, false)];
    assert_eq!(first_audio_track(&tracks), Err(LoadError::NoAudioTrack));
}

#[test]
fn load_joins_song_and_track() {
    let loaded = LoadedSong::load(a_song(), Some(Metadata { visuals: vec![] }), &track(3, true), true)
        .expect("the track has all that loading needs");
    assert_eq!(loaded.track_id, 3);
    assert_eq!(loaded.signal_spec, SignalSpec { rate: 44_100, channels: 0b11 });
    assert_eq!(loaded.song.path, a_song().path);
    assert!(loaded.metadata.is_some());
}

#[test]
fn load_fails_on_what_is_missing_first() {
    let mut bare = track(3, true);
    bare.sample_rate = None;
    bare.channels = None;
    assert_eq!(
        LoadedSong::load(a_song(), None, &bare, false).err(),
        Some(LoadError::Codec)
    );
    assert_eq!(
        LoadedSong::load(a_song(), None, &bare, true).err(),
        Some(LoadError::NoSampleRate)
    );
    bare.sample_rate = Some(8_000);
    assert_eq!(
        LoadedSong::load(a_song(), None, &bare, true).err(),
        Some(LoadError::NoChannels)
    );
}

#[test]
fn loading_twice_gives_two_songs_of_their_own() {
    let first = LoadedSong::load(a_song(), None, &track(3, true), true).unwrap();
    let mut second = LoadedSong::load(a_song(), None, &track(3, true), true).unwrap();
    second.track_id = 4;
    assert_eq!(first.track_id, 3);
    assert_eq!(first.plan(PacketRead::Packet { track_id: 3 }), PacketPlan::Decode);
    assert_eq!(second.plan(PacketRead::Packet { track_id: 3 }), PacketPlan::Ignore);
}

#[test]
fn plan_decodes_only_the_chosen_track() {
    let loaded = LoadedSong::load(a_song(), None, &track(3, true), true).unwrap();
    assert_eq!(loaded.plan(PacketRead::Packet { track_id: 3 }), PacketPlan::Decode);
    assert_eq!(loaded.plan(PacketRead::Packet { track_id: 4 }), PacketPlan::Ignore);
    assert_eq!(loaded.plan(PacketRead::EndOfStream), PacketPlan::End);
    assert_eq!(loaded.plan(PacketRead::Failed), PacketPlan::Fail);
}

#[test]
fn read_failure_tells_the_end_of_the_stream() {
    assert_eq!(read_failure(true, "end of stream"), PacketRead::EndOfStream);
    assert_eq!(read_failure(false, "end of stream"), PacketRead::Failed);
    assert_eq!(read_failure(true, "end of streams"), PacketRead::Failed);
    assert_eq!(read_failure(true, ""), PacketRead::Failed);
}

#[test]
fn pulled_follows_the_plan() {
    assert!(matches!(pulled(PacketPlan::Decode, Some(vec![1, 2])), Pulled::Chunk(chunk) if chunk == vec![1, 2]));
    assert!(matches!(pulled::<i32>(PacketPlan::Decode, None), Pulled::Failed));
    assert!(matches!(pulled(PacketPlan::Ignore, Some(vec![1])), Pulled::Skipped));
    assert!(matches!(pulled::<i32>(PacketPlan::Ignore, None), Pulled::Skipped));
    assert!(matches!(pulled::<i32>(PacketPlan::End, None), Pulled::EndOfStream));
    assert!(matches!(pulled::<i32>(PacketPlan::Fail, None), Pulled::Failed));
}

#[test]
fn probe_failure_is_of_input_or_of_format() {
    assert_eq!(probe_failure(true), LoadError::Io);
    assert_eq!(probe_failure(false), LoadError::Probe);
}
