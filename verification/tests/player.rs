use ramp::cache::{Cache, CacheError};
use ramp::command::Command;
use ramp::loader::LoadError;
use ramp::player::{CommandError, Directive, Event, OpenError, Player, PlayerStatus};
use ramp::song::{Gain, Song};
use ramp::tags::{OtherTags, StandardTags};
use ramp::time::PlayTime;

fn path(text: &str) -> Vec<String> {
    let mut parts = vec!["/".to_string()];
    for part in text.split('/') {
        if !part.is_empty() {
            parts.push(part.to_string());
        }
    }
    parts
}

fn song(text: &str, secs: u64) -> Song {
    Song {
        path: path(text),
        duration: PlayTime::from_secs(secs),
        gain_factor: Gain::unity(),
        standard_tags: StandardTags::new(),
        other_tags: OtherTags::new(),
    }
}

fn cache_of(files: &[&str]) -> Cache {
    let mut cache = Cache::new();
    for file in files {
        cache.insert_file(&path(file), song(file, 10)).unwrap();
    }
    cache
}

fn open_of(result: Result<Directive, CommandError>) -> Song {
    match result {
        Ok(Directive::Open(song)) => song,
        other => panic!("expected a song to open, got {:?}", other),
    }
}

fn current(player: &Player) -> Option<Vec<String>> {
    match &player.status {
        PlayerStatus::PlayingOrPaused { song, .. } => Some(song.path.clone()),
        PlayerStatus::Stopped => None,
    }
}

fn paused(player: &Player) -> Option<bool> {
    match &player.status {
        PlayerStatus::PlayingOrPaused { paused, .. } => Some(*paused),
        PlayerStatus::Stopped => None,
    }
}

fn queue_of(player: &Player) -> Vec<Vec<String>> {
    player.queue.iter().cloned().collect()
}

#[test]
fn new_player_is_stopped_and_empty() {
    let player = Player::new();
    assert!(matches!(player.status, PlayerStatus::Stopped));
    assert!(player.queue.is_empty());
}

#[test]
fn enqueue_on_stopped_player_opens_the_song() {
    let cache = cache_of(&["/music/x.flac"]);
    let mut player = Player::new();
    let result = player.handle(&cache, Command::Enqueue(path("/music/x.flac")));
    let song = open_of(result);
    assert_eq!(song.path, path("/music/x.flac"));
    assert!(matches!(player.status, PlayerStatus::Stopped));
    assert!(player.queue.is_empty());
    player.opened(song, None);
    assert_eq!(current(&player), Some(path("/music/x.flac")));
    assert_eq!(paused(&player), Some(false));
    assert!(player.queue.is_empty());
}

#[test]
fn queue_is_first_in_first_out() {
    let cache = cache_of(&["/music/a.flac", "/music/b.flac"]);
    let mut player = Player::new();
    let a = open_of(player.handle(&cache, Command::Enqueue(path("/music/a.flac"))));
    player.opened(a, None);
    let second = player.handle(&cache, Command::Enqueue(path("/music/b.flac")));
    assert!(matches!(second, Ok(Directive::Publish)));
    let third = player.handle(&cache, Command::Play);
    assert!(matches!(third, Ok(Directive::Publish)));
    assert_eq!(current(&player), Some(path("/music/a.flac")));
    assert_eq!(queue_of(&player), vec![path("/music/b.flac")]);
}

#[test]
fn skip_moves_on_to_the_next_song() {
    let cache = cache_of(&["/music/a.flac", "/music/b.flac"]);
    let mut player = Player::new();
    let a = open_of(player.handle(&cache, Command::Enqueue(path("/music/a.flac"))));
    player.opened(a, None);
    player.handle(&cache, Command::Enqueue(path("/music/b.flac"))).unwrap();
    let b = open_of(player.handle(&cache, Command::Skip));
    assert_eq!(b.path, path("/music/b.flac"));
    assert!(matches!(player.status, PlayerStatus::Stopped));
    player.opened(b, None);
    assert_eq!(current(&player), Some(path("/music/b.flac")));
    assert!(player.queue.is_empty());
}

#[test]
fn skip_with_empty_queue_stops() {
    let cache = cache_of(&["/music/a.flac"]);
    let mut player = Player::new();
    let a = open_of(player.handle(&cache, Command::Enqueue(path("/music/a.flac"))));
    player.opened(a, None);
    let result = player.handle(&cache, Command::Skip);
    assert!(matches!(result, Ok(Directive::Publish)));
    assert!(matches!(player.status, PlayerStatus::Stopped));
    assert!(player.queue.is_empty());
}

#[test]
fn dequeue_out_of_range_reports_and_keeps_the_queue() {
    let cache = cache_of(&["/music/a.flac", "/music/b.flac", "/music/c.flac"]);
    let mut player = Player::new();
    let a = open_of(player.handle(&cache, Command::Enqueue(path("/music/a.flac"))));
    player.opened(a, None);
    player.handle(&cache, Command::Enqueue(path("/music/b.flac"))).unwrap();
    player.handle(&cache, Command::Enqueue(path("/music/c.flac"))).unwrap();
    let result = player.handle(&cache, Command::Dequeue(5));
    assert!(matches!(
        result,
        Err(CommandError::IndexOutOfRange { index: 5, len: 2 })
    ));
    assert_eq!(queue_of(&player), vec![path("/music/b.flac"), path("/music/c.flac")]);
    assert_eq!(current(&player), Some(path("/music/a.flac")));
}

#[test]
fn dequeue_removes_the_entry_at_the_index() {
    let cache = cache_of(&["/music/a.flac", "/music/b.flac", "/music/c.flac"]);
    let mut player = Player::new();
    let a = open_of(player.handle(&cache, Command::Enqueue(path("/music/a.flac"))));
    player.opened(a, None);
    player.handle(&cache, Command::Enqueue(path("/music/b.flac"))).unwrap();
    player.handle(&cache, Command::Enqueue(path("/music/c.flac"))).unwrap();
    let result = player.handle(&cache, Command::Dequeue(0));
    assert!(matches!(result, Ok(Directive::Publish)));
    assert_eq!(queue_of(&player), vec![path("/music/c.flac")]);
}

#[test]
fn pause_is_idempotent_and_keeps_the_played_time() {
    let cache = cache_of(&["/music/a.flac"]);
    let mut player = Player::new();
    let a = open_of(player.handle(&cache, Command::Enqueue(path("/music/a.flac"))));
    player.opened(a, None);
    player.progress(PlayTime::new(3, 500_000_000).unwrap());
    player.handle(&cache, Command::Pause).unwrap();
    assert_eq!(paused(&player), Some(true));
    player.handle(&cache, Command::Pause).unwrap();
    assert_eq!(paused(&player), Some(true));
    match &player.status {
        PlayerStatus::PlayingOrPaused { playing_duration, .. } => {
            assert_eq!(playing_duration.as_secs(), 3);
            assert_eq!(playing_duration.subsec_nanos(), 500_000_000);
        }
        PlayerStatus::Stopped => panic!("the song must still be current"),
    }
}

#[test]
fn play_resumes_and_play_pause_toggles() {
    let cache = cache_of(&["/music/a.flac"]);
    let mut player = Player::new();
    let a = open_of(player.handle(&cache, Command::Enqueue(path("/music/a.flac"))));
    player.opened(a, None);
    player.handle(&cache, Command::PlayPause).unwrap();
    assert_eq!(paused(&player), Some(true));
    player.handle(&cache, Command::PlayPause).unwrap();
    assert_eq!(paused(&player), Some(false));
    player.handle(&cache, Command::Pause).unwrap();
    player.handle(&cache, Command::Play).unwrap();
    assert_eq!(paused(&player), Some(false));
}

#[test]
fn pause_on_a_stopped_player_changes_nothing() {
    let cache = Cache::new();
    let mut player = Player::new();
    assert!(matches!(player.handle(&cache, Command::Pause), Ok(Directive::Publish)));
    assert!(matches!(player.handle(&cache, Command::PlayPause), Ok(Directive::Publish)));
    assert!(matches!(player.handle(&cache, Command::Play), Ok(Directive::Publish)));
    assert!(matches!(player.status, PlayerStatus::Stopped));
}

#[test]
fn stop_keeps_the_queue_and_clear_empties_it() {
    let cache = cache_of(&["/music/a.flac", "/music/b.flac"]);
    let mut player = Player::new();
    let a = open_of(player.handle(&cache, Command::Enqueue(path("/music/a.flac"))));
    player.opened(a, None);
    player.handle(&cache, Command::Enqueue(path("/music/b.flac"))).unwrap();
    player.handle(&cache, Command::Stop).unwrap();
    assert!(matches!(player.status, PlayerStatus::Stopped));
    assert_eq!(queue_of(&player), vec![path("/music/b.flac")]);
    player.handle(&cache, Command::Clear).unwrap();
    assert!(matches!(player.status, PlayerStatus::Stopped));
    assert!(player.queue.is_empty());
}

#[test]
fn a_path_the_cache_lacks_is_dropped_and_reported() {
    let cache = cache_of(&["/music/a.flac"]);
    let mut player = Player::new();
    let result = player.handle(&cache, Command::Enqueue(path("/music/missing.flac")));
    assert!(matches!(result, Err(CommandError::SongNotFound)));
    assert!(matches!(player.status, PlayerStatus::Stopped));
    assert!(player.queue.is_empty());
}

#[test]
fn a_directory_in_the_queue_is_reported_as_no_file() {
    let cache = cache_of(&["/music/a.flac"]);
    let mut player = Player::new();
    let result = player.handle(&cache, Command::Enqueue(path("/music")));
    assert!(matches!(
        result,
        Err(CommandError::Lookup(CacheError::NotAFile))
    ));
    let below = player.handle(&cache, Command::Enqueue(path("/music/a.flac/x")));
    assert!(matches!(
        below,
        Err(CommandError::Lookup(CacheError::NotADirectory))
    ));
    let empty = player.handle(&cache, Command::Enqueue(Vec::new()));
    assert!(matches!(
        empty,
        Err(CommandError::Lookup(CacheError::EmptyPath))
    ));
}

#[test]
fn a_song_that_fails_to_load_is_passed_over() {
    let cache = cache_of(&["/music/a.flac", "/music/b.flac"]);
    let mut player = Player::new();
    player.queue.push_back(path("/music/a.flac"));
    player.queue.push_back(path("/music/b.flac"));
    let a = open_of(player.handle(&cache, Command::Play));
    assert_eq!(a.path, path("/music/a.flac"));
    let next = player.open_failed(&cache, OpenError::Load(LoadError::Codec));
    let b = open_of(next);
    assert_eq!(b.path, path("/music/b.flac"));
    assert!(player.queue.is_empty());
    let last = player.open_failed(&cache, OpenError::Load(LoadError::Io));
    assert!(matches!(last, Ok(Directive::Publish)));
    assert!(matches!(player.status, PlayerStatus::Stopped));
}

#[test]
fn a_device_failure_keeps_the_player_stopped_and_the_queue() {
    let cache = cache_of(&["/music/a.flac", "/music/b.flac"]);
    let mut player = Player::new();
    player.queue.push_back(path("/music/a.flac"));
    player.queue.push_back(path("/music/b.flac"));
    let _a = open_of(player.handle(&cache, Command::Play));
    let result = player.open_failed(&cache, OpenError::Device);
    assert!(matches!(result, Ok(Directive::Publish)));
    assert!(matches!(player.status, PlayerStatus::Stopped));
    assert_eq!(queue_of(&player), vec![path("/music/b.flac")]);
}

#[test]
fn events_are_applied_one_at_a_time_in_their_order() {
    let cache = cache_of(&["/music/a.flac", "/music/b.flac"]);
    let events = || {
        vec![
            Event::Command(Command::Enqueue(path("/music/a.flac"))),
            Event::Opened(song("/music/a.flac", 10), None),
            Event::Command(Command::Enqueue(path("/music/b.flac"))),
            Event::Command(Command::Pause),
            Event::Command(Command::Skip),
            Event::OpenFailed(OpenError::Load(LoadError::Probe)),
            Event::Command(Command::Enqueue(path("/music/a.flac"))),
        ]
    };
    let mut whole = Player::new();
    for event in events() {
        let _ = whole.apply(&cache, event);
    }
    let mut parts = Player::new();
    let mut rest = events();
    let first: Vec<Event> = rest.drain(..3).collect();
    for event in first {
        let _ = parts.apply(&cache, event);
    }
    assert_eq!(current(&parts), Some(path("/music/a.flac")));
    assert_eq!(queue_of(&parts), vec![path("/music/b.flac")]);
    for event in rest {
        let _ = parts.apply(&cache, event);
    }
    assert_eq!(current(&whole), current(&parts));
    assert_eq!(queue_of(&whole), queue_of(&parts));
    assert_eq!(current(&whole), None);
    assert!(queue_of(&whole).is_empty());
}

#[test]
fn apply_answers_as_the_step_does() {
    let cache = cache_of(&["/music/a.flac"]);
    let mut player = Player::new();
    let asked = player.apply(&cache, Event::Command(Command::Enqueue(path("/music/a.flac"))));
    let a = open_of(asked);
    assert!(matches!(player.apply(&cache, Event::Opened(a, None)), Ok(Directive::Publish)));
    assert_eq!(current(&player), Some(path("/music/a.flac")));
    assert!(matches!(
        player.apply(&cache, Event::OpenFailed(OpenError::Device)),
        Ok(Directive::Publish)
    ));
    assert_eq!(current(&player), Some(path("/music/a.flac")));
    assert!(matches!(
        player.apply(&cache, Event::Command(Command::Dequeue(0))),
        Err(CommandError::IndexOutOfRange { index: 0, len: 0 })
    ));
}
