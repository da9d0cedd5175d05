use ramp::cache::Cache;
use ramp::command::Command;
use ramp::loader::{Pulled, SignalSpec};
use ramp::playback::{Playback, Rendered};
use ramp::player::{Directive, Player, PlayerStatus};
use ramp::song::{Gain, Song};
use ramp::tags::{OtherTags, StandardTags};
use ramp::time::PlayTime;

const STEREO: u32 = 0b11;
const MONO: u32 = 0b1;

fn stream(rate: u32, channels: u32) -> Playback<i32> {
    Playback::new(SignalSpec { rate, channels }).expect("a stream for a sound signal")
}

#[test]
fn new_stream_counts_the_channels_of_the_mask() {
    let stereo = stream(44_100, STEREO);
    assert_eq!(stereo.config.channels, 2);
    assert_eq!(stereo.config.sample_rate, 44_100);
    assert!(stereo.backlog.is_empty());
    assert!(!stereo.ended);
    assert!(!stereo.exhausted);
    assert_eq!(stereo.samples, 0);
    let surround = stream(48_000, 0b11_1111);
    assert_eq!(surround.config.channels, 6);
    let high = stream(48_000, 0x0200_0000);
    assert_eq!(high.config.channels, 1);
}

#[test]
fn new_stream_ignores_bits_beyond_the_channel_positions() {
    let playback = stream(8_000, 0xfc00_0001);
    assert_eq!(playback.config.channels, 1);
    assert!(Playback::<i32>::new(SignalSpec { rate: 8_000, channels: 0xfc00_0000 }).is_none());
}

#[test]
fn no_stream_without_channels_or_rate() {
    assert!(Playback::<i32>::new(SignalSpec { rate: 44_100, channels: 0 }).is_none());
    assert!(Playback::<i32>::new(SignalSpec { rate: 0, channels: STEREO }).is_none());
}

#[test]
fn wants_chunk_while_backlog_is_short_and_stream_goes_on() {
    let mut playback = stream(10, MONO);
    assert!(playback.wants_chunk(4));
    assert!(!playback.wants_chunk(0));
    playback.feed(Pulled::Chunk(vec![1, 2, 3]));
    assert!(playback.wants_chunk(4));
    playback.feed(Pulled::Chunk(vec![4]));
    assert!(!playback.wants_chunk(4));
    assert!(playback.wants_chunk(5));
    playback.feed(Pulled::EndOfStream);
    assert!(!playback.wants_chunk(5));
}

#[test]
fn feed_appends_chunks_in_order() {
    let mut playback = stream(10, MONO);
    playback.feed(Pulled::Chunk(vec![1, 2]));
    playback.feed(Pulled::Skipped);
    playback.feed(Pulled::Chunk(vec![3]));
    assert_eq!(playback.backlog.iter().copied().collect::<Vec<_>>(), vec![1, 2, 3]);
    assert!(!playback.ended);
}

#[test]
fn a_failed_pull_ends_the_stream_like_its_end() {
    let mut failed = stream(10, MONO);
    failed.feed(Pulled::Failed);
    assert!(failed.ended);
    let mut ended = stream(10, MONO);
    ended.feed(Pulled::EndOfStream);
    assert!(ended.ended);
}

#[test]
fn render_moves_the_oldest_samples_to_the_start_of_the_buffer() {
    let mut playback = stream(10, MONO);
    playback.feed(Pulled::Chunk(vec![1, 2, 3, 4, 5]));
    let mut dest = [0; 3];
    let rendered = playback.render(&mut dest);
    assert_eq!(rendered, Rendered { written: 3, exhausted: false });
    assert_eq!(dest, [1, 2, 3]);
    assert_eq!(playback.backlog.iter().copied().collect::<Vec<_>>(), vec![4, 5]);
    assert_eq!(playback.samples, 3);
}

#[test]
fn render_leaves_what_it_cannot_fill() {
    let mut playback = stream(10, MONO);
    playback.feed(Pulled::Chunk(vec![7, 8]));
    let mut dest = [-1; 4];
    let rendered = playback.render(&mut dest);
    assert_eq!(rendered, Rendered { written: 2, exhausted: false });
    assert_eq!(dest, [7, 8, -1, -1]);
    assert!(playback.backlog.is_empty());
}

#[test]
fn render_reports_exhaustion_once_the_ended_stream_runs_dry() {
    let mut playback = stream(10, MONO);
    playback.feed(Pulled::Chunk(vec![1, 2, 3, 4]));
    playback.feed(Pulled::EndOfStream);
    let mut dest = [0; 4];
    assert_eq!(playback.render(&mut dest), Rendered { written: 4, exhausted: false });
    assert!(!playback.exhausted);
    assert_eq!(playback.render(&mut dest), Rendered { written: 0, exhausted: true });
    assert!(playback.exhausted);
    assert_eq!(dest, [1, 2, 3, 4]);
    assert_eq!(playback.render(&mut dest), Rendered { written: 0, exhausted: false });
    assert!(playback.exhausted);
}

#[test]
fn render_of_a_partial_last_buffer_is_exhausted_at_once() {
    let mut playback = stream(10, MONO);
    playback.feed(Pulled::Chunk(vec![1, 2]));
    playback.feed(Pulled::Failed);
    let mut dest = [9; 4];
    assert_eq!(playback.render(&mut dest), Rendered { written: 2, exhausted: true });
    assert_eq!(dest, [1, 2, 9, 9]);
    assert_eq!(playback.render(&mut dest), Rendered { written: 0, exhausted: false });
}

#[test]
fn render_paused_fills_silence_and_keeps_the_state() {
    let mut playback = stream(10, MONO);
    playback.feed(Pulled::Chunk(vec![1, 2, 3]));
    let mut dest = [5; 4];
    playback.render_paused(&mut dest, 0);
    assert_eq!(dest, [0, 0, 0, 0]);
    assert_eq!(playback.backlog.len(), 3);
    assert_eq!(playback.samples, 0);
    assert_eq!(playback.played().as_secs(), 0);
}

#[test]
fn played_time_is_samples_over_channels_times_rate() {
    let mut playback = stream(44_100, STEREO);
    playback.feed(Pulled::Chunk(vec![0; 132_300]));
    let mut dest = vec![0; 132_300];
    playback.render(&mut dest);
    let played = playback.played();
    assert_eq!(played.as_secs(), 1);
    assert_eq!(played.subsec_nanos(), 500_000_000);
}

#[test]
fn played_time_rounds_down_to_the_nanosecond() {
    let mut playback = stream(3, MONO);
    playback.feed(Pulled::Chunk(vec![0; 2]));
    let mut dest = [0; 2];
    playback.render(&mut dest);
    let played = playback.played();
    assert_eq!(played.as_secs(), 0);
    assert_eq!(played.subsec_nanos(), 666_666_666);
}

#[test]
fn sample_count_stops_at_the_largest_number() {
    let mut playback = stream(1, MONO);
    playback.samples = u64::MAX - 1;
    playback.feed(Pulled::Chunk(vec![0; 3]));
    let mut dest = [0; 3];
    playback.render(&mut dest);
    assert_eq!(playback.samples, u64::MAX);
}

#[test]
fn end_of_a_ten_second_song_skips_to_a_stopped_player() {
    let mut cache = Cache::new();
    let path = vec!["/".to_string(), "music".to_string(), "x.flac".to_string()];
    let song = Song {
        path: path.clone(),
        duration: PlayTime::from_secs(10),
        gain_factor: Gain::unity(),
        standard_tags: StandardTags::new(),
        other_tags: OtherTags::new(),
    };
    cache.insert_file(&path, song).unwrap();
    let mut player = Player::new();
    let opened = match player.handle(&cache, Command::Enqueue(path)) {
        Ok(Directive::Open(song)) => song,
        other => panic!("expected a song to open, got {:?}", other),
    };
    player.opened(opened, None);

    let mut playback = stream(8, MONO);
    let mut dest = [0; 16];
    let mut skips = 0;
    let mut chunks = 5;
    for _ in 0..7 {
        while playback.wants_chunk(dest.len()) {
            if chunks > 0 {
                chunks -= 1;
                playback.feed(Pulled::Chunk(vec![0; 16]));
            } else {
                playback.feed(Pulled::EndOfStream);
            }
        }
        let rendered = playback.render(&mut dest);
        player.progress(playback.played());
        if rendered.exhausted {
            skips += 1;
        }
    }
    assert_eq!(skips, 1);
    assert_eq!(playback.played().as_secs(), 10);
    assert_eq!(playback.played().subsec_nanos(), 0);
    let result = player.handle(&cache, Command::Skip);
    assert!(matches!(result, Ok(Directive::Publish)));
    assert!(matches!(player.status, PlayerStatus::Stopped));
    assert!(player.queue.is_empty());
}
