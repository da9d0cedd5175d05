use ramp::command::Command;
use ramp::facade::PlayerFacade;
use ramp::keys::{StandardTagKey, StandardVisualKey};
use ramp::media::{command_for, metadata_of, playback_of, MediaEvent, MediaPlayback};
use ramp::player::{Player, PlayerStatus};
use ramp::song::{Gain, Song};
use ramp::tags::{OtherTags, StandardTags};
use ramp::time::PlayTime;
use ramp::value::{Metadata, Value, Visual};

fn song() -> Song {
    Song {
        path: vec!["/".to_string(), "music".to_string(), "x.flac".to_string()],
        duration: PlayTime::from_secs(200),
        gain_factor: Gain::unity(),
        standard_tags: StandardTags::new()
            .insert(StandardTagKey::TrackTitle, Value::String("Title".to_string()))
            .insert(StandardTagKey::Album, Value::String("Album".to_string()))
            .insert(StandardTagKey::Artist, Value::UnsignedInt(7)),
        other_tags: OtherTags::new(),
    }
}

fn visual(usage: Option<StandardVisualKey>, data: &[u8]) -> Visual {
    Visual {
        media_type: "image/png".to_string(),
        dimensions: None,
        bits_per_pixel: None,
        color_mode: None,
        usage,
        tags: vec![],
        data: data.to_vec(),
    }
}

fn playing(metadata: Option<Metadata>) -> Player {
    let mut player = Player::new();
    player.queue.push_back(vec!["next".to_string()]);
    player.opened(song(), metadata);
    player
}

#[test]
fn default_facade_is_stopped_and_empty() {
    let facade = PlayerFacade::default();
    assert!(matches!(facade.status, PlayerStatus::Stopped));
    assert!(facade.queue.is_empty());
    assert!(facade.current_song().is_none());
    assert!(facade.playing_duration().is_none());
    assert!(facade.current_cover().is_none());
    assert!(facade.paused().is_none());
}

#[test]
fn facade_copies_status_and_queue() {
    let mut player = playing(None);
    player.progress(PlayTime::new(12, 5).unwrap());
    let facade = PlayerFacade::from_player(&player);
    assert_eq!(facade.queue, vec![vec!["next".to_string()]]);
    assert_eq!(facade.current_song().map(|s| s.path.clone()), Some(song().path));
    assert_eq!(facade.playing_duration(), Some(PlayTime::new(12, 5).unwrap()));
    assert_eq!(facade.paused(), Some(false));
}

#[test]
fn facade_does_not_follow_the_player() {
    let mut player = playing(None);
    let facade = PlayerFacade::from_player(&player);
    player.pause().unwrap();
    player.clear().unwrap();
    assert_eq!(facade.paused(), Some(false));
    assert_eq!(facade.queue.len(), 1);
    assert!(facade.current_song().is_some());
}

#[test]
fn current_cover_is_the_first_front_cover() {
    let metadata = Metadata {
        visuals: vec![
            visual(Some(StandardVisualKey::BackCover), &[1]),
            visual(None, &[2]),
            visual(Some(StandardVisualKey::FrontCover), &[3, 4]),
            visual(Some(StandardVisualKey::FrontCover), &[5]),
        ],
    };
    let player = playing(Some(metadata));
    assert_eq!(player.current_cover(), Some(&vec![3, 4]));
    let facade = PlayerFacade::from_player(&player);
    assert_eq!(facade.current_cover(), Some(&vec![3, 4]));
}

#[test]
fn no_cover_without_a_front_cover() {
    let metadata = Metadata { visuals: vec![visual(Some(StandardVisualKey::Media), &[1])] };
    assert_eq!(PlayerFacade::from_player(&playing(Some(metadata))).current_cover(), None);
    assert_eq!(PlayerFacade::from_player(&playing(None)).current_cover(), None);
    assert_eq!(Metadata { visuals: vec![] }.front_cover(), None);
}

#[test]
fn player_getters_read_the_status() {
    let mut player = playing(None);
    player.progress(PlayTime::from_secs(3));
    assert_eq!(player.current().map(|s| s.path.clone()), Some(song().path));
    assert_eq!(player.current_time(), Some(PlayTime::from_secs(3)));
    assert_eq!(player.nexts(), vec![vec!["next".to_string()]]);
    player.stop().unwrap();
    assert!(player.current().is_none());
    assert!(player.current_time().is_none());
    assert!(player.current_cover().is_none());
    player.progress(PlayTime::from_secs(9));
    assert!(matches!(player.status, PlayerStatus::Stopped));
}

#[test]
fn media_events_map_to_commands() {
    assert!(matches!(command_for(MediaEvent::Play), Some(Command::Play)));
    assert!(matches!(command_for(MediaEvent::Pause), Some(Command::Pause)));
    assert!(matches!(command_for(MediaEvent::Toggle), Some(Command::PlayPause)));
    assert!(matches!(command_for(MediaEvent::Next), Some(Command::Skip)));
    assert!(matches!(command_for(MediaEvent::Stop), Some(Command::Stop)));
}

#[test]
fn media_events_without_a_command_do_nothing() {
    for event in [
        MediaEvent::Previous,
        MediaEvent::Seek,
        MediaEvent::SeekBy,
        MediaEvent::SetPosition,
        MediaEvent::OpenUri,
        MediaEvent::Raise,
        MediaEvent::Quit,
    ] {
        assert!(command_for(event).is_none());
    }
}

#[test]
fn playback_state_follows_the_snapshot() {
    let mut player = playing(None);
    player.progress(PlayTime::from_secs(5));
    assert_eq!(
        playback_of(&PlayerFacade::from_player(&player)),
        MediaPlayback::Playing { progress: Some(PlayTime::from_secs(5)) }
    );
    player.pause().unwrap();
    assert_eq!(
        playback_of(&PlayerFacade::from_player(&player)),
        MediaPlayback::Paused { progress: Some(PlayTime::from_secs(5)) }
    );
    player.stop().unwrap();
    assert_eq!(playback_of(&PlayerFacade::from_player(&player)), MediaPlayback::Stopped);
}

#[test]
fn media_metadata_takes_text_tags_and_names_the_cover() {
    let facade = PlayerFacade::from_player(&playing(None));
    let metadata = metadata_of(&facade, "/tmp/cover");
    assert_eq!(metadata.title.as_deref(), Some("Title"));
    assert_eq!(metadata.album.as_deref(), Some("Album"));
    assert_eq!(metadata.artist, None);
    assert_eq!(metadata.cover_url.as_deref(), Some("file:///tmp/cover"));
    assert_eq!(metadata.duration, Some(PlayTime::from_secs(200)));
}

#[test]
fn media_metadata_of_a_stopped_player_names_only_the_cover() {
    let metadata = metadata_of(&PlayerFacade::default(), "c");
    assert_eq!(metadata.title, None);
    assert_eq!(metadata.album, None);
    assert_eq!(metadata.artist, None);
    assert_eq!(metadata.cover_url.as_deref(), Some("file://c"));
    assert_eq!(metadata.duration, None);
}
