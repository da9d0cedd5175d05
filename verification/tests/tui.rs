use ramp::cache::CacheEntry;
use ramp::command::Command;
use ramp::facade::PlayerFacade;
use ramp::keys::StandardTagKey;
use ramp::player::Player;
use ramp::song::{Gain, Song};
use ramp::tags::{OtherTags, StandardTags};
use ramp::time::PlayTime;
use ramp::tui::fancy::{cover_bounds, half_blocks, HalfBlock, Rgb};
use ramp::tui::files::{offset_for, Files, FilterState, Picked};
use ramp::tui::log::{Log, LogError};
use ramp::tui::search::{best_first, Search, SearchAction};
use ramp::tui::song_table::{cache_row, song_row};
use ramp::tui::status::{elapsed_text, now_playing, remaining, remaining_text};
use ramp::tui::tabs::{Tabs, TabsAction};
use ramp::tui::{format_duration, list_select_bounded, Key, UNKNOWN_STRING};
use ramp::value::Value;

fn song(tags: &[(StandardTagKey, Value)], path: &[&str], secs: u64) -> Song {
    let mut standard = StandardTags::new();
    for (key, value) in tags {
        standard = standard.insert(*key, value.clone());
    }
    Song {
        path: path.iter().map(|p| p.to_string()).collect(),
        duration: PlayTime::from_secs(secs),
        gain_factor: Gain::unity(),
        standard_tags: standard,
        other_tags: OtherTags::new(),
    }
}

fn text(s: &str) -> Value {
    Value::String(s.to_string())
}

#[test]
fn format_duration_shows_minutes_and_seconds() {
    assert_eq!(format_duration(PlayTime::from_secs(0)), "00:00");
    assert_eq!(format_duration(PlayTime::from_secs(59)), "00:59");
    assert_eq!(format_duration(PlayTime::from_secs(60)), "01:00");
    assert_eq!(format_duration(PlayTime::from_secs(605)), "10:05");
    assert_eq!(format_duration(PlayTime::from_secs(3599)), "59:59");
    assert_eq!(format_duration(PlayTime::new(59, 999_999_999).unwrap()), "00:59");
}

#[test]
fn format_duration_shows_hours_once_there_are_some() {
    assert_eq!(format_duration(PlayTime::from_secs(3600)), "01:00:00");
    assert_eq!(format_duration(PlayTime::from_secs(3661)), "01:01:01");
    assert_eq!(format_duration(PlayTime::from_secs(100 * 3600 + 62)), "100:01:02");
    assert_eq!(format_duration(PlayTime::from_secs(u64::MAX)), "5124095576030431:00:15");
}

#[test]
fn play_time_is_seconds_and_nanoseconds() {
    assert!(PlayTime::new(1, 1_000_000_000).is_none());
    let time = PlayTime::new(2, 999_999_999).unwrap();
    assert_eq!(time.as_secs(), 2);
    assert_eq!(time.subsec_nanos(), 999_999_999);
    assert_eq!(PlayTime::zero(), PlayTime::from_secs(0));
    assert!(PlayTime::from_secs(1).le(&time));
    assert!(!time.le(&PlayTime::from_secs(2)));
    assert!(time.le(&time));
}

#[test]
fn play_time_subtracts_down_to_nothing() {
    let a = PlayTime::new(5, 100).unwrap();
    let b = PlayTime::new(2, 200).unwrap();
    assert_eq!(a.saturating_sub(&b), PlayTime::new(2, 999_999_900).unwrap());
    assert_eq!(b.saturating_sub(&a), PlayTime::zero());
    assert_eq!(a.saturating_sub(&a), PlayTime::zero());
    assert_eq!(a.saturating_sub(&PlayTime::zero()), a);
}

#[test]
fn play_time_from_rates() {
    assert_eq!(PlayTime::from_samples(88_200, 88_200), PlayTime::from_secs(1));
    assert_eq!(PlayTime::from_samples(1, 3), PlayTime::new(0, 333_333_333).unwrap());
    assert_eq!(PlayTime::from_ticks(3, 1, 2), PlayTime::new(1, 500_000_000));
    assert_eq!(PlayTime::from_ticks(u64::MAX, 2, 1), None);
    assert_eq!(PlayTime::from_ratio(7, 2), PlayTime::new(3, 500_000_000));
    assert_eq!(PlayTime::from_ratio(u128::MAX, 1), None);
}

#[test]
fn list_selection_moves_within_bounds() {
    assert_eq!(list_select_bounded(Some(3), 10, 1), Some(4));
    assert_eq!(list_select_bounded(Some(3), 10, -1), Some(2));
    assert_eq!(list_select_bounded(Some(3), 10, -3), Some(0));
    assert_eq!(list_select_bounded(Some(3), 10, 6), Some(9));
    assert_eq!(list_select_bounded(Some(3), 10, 0), Some(3));
}

#[test]
fn list_selection_stops_at_the_ends() {
    assert_eq!(list_select_bounded(Some(3), 10, -25), Some(0));
    assert_eq!(list_select_bounded(Some(3), 10, 25), Some(9));
    assert_eq!(list_select_bounded(Some(3), 10, 7), Some(9));
    assert_eq!(list_select_bounded(Some(0), 0, 1), Some(0));
    assert_eq!(list_select_bounded(Some(5), 10, isize::MIN), Some(0));
    assert_eq!(list_select_bounded(Some(5), 10, isize::MAX), Some(9));
    assert_eq!(list_select_bounded(None, 10, 1), None);
}

#[test]
fn log_keeps_what_is_written() {
    let mut log = Log::new();
    assert_eq!(log.len(), 0);
    assert_eq!(log.write("first".as_bytes()), Ok(5));
    assert_eq!(log.write("zweite Zeile ä".as_bytes()), Ok(15));
    assert_eq!(log.flush(), Ok(()));
    assert_eq!(log.len(), 2);
    assert_eq!(log.line(0), "first");
    assert_eq!(log.line(1), "zweite Zeile ä");
}

#[test]
fn log_refuses_bytes_that_are_no_text() {
    let mut log = Log::new();
    assert_eq!(log.write(&[0xff, 0xfe]), Err(LogError::InvalidData));
    assert_eq!(log.len(), 0);
}

#[test]
fn tabs_cycle_forward() {
    let mut tabs = Tabs::new(4).unwrap();
    assert_eq!(tabs.selected(), 0);
    assert_eq!(tabs.count(), 4);
    for expected in [1, 2, 3, 0, 1] {
        assert_eq!(tabs.input(Key::Tab), TabsAction::Handled);
        assert_eq!(tabs.selected(), expected);
    }
}

#[test]
fn tabs_cycle_backward() {
    let mut tabs = Tabs::new(4).unwrap();
    for expected in [3, 2, 1, 0, 3] {
        assert_eq!(tabs.input(Key::BackTab), TabsAction::Handled);
        assert_eq!(tabs.selected(), expected);
    }
    let mut three = Tabs::new(3).unwrap();
    three.input(Key::BackTab);
    assert_eq!(three.selected(), usize::MAX % 3);
}

#[test]
fn tabs_quit_on_q_and_forward_the_rest() {
    assert!(Tabs::new(0).is_none());
    let mut tabs = Tabs::new(2).unwrap();
    assert_eq!(tabs.input(Key::Char('q')), TabsAction::Quit);
    assert_eq!(tabs.input(Key::Char('x')), TabsAction::Forward);
    assert_eq!(tabs.input(Key::Enter), TabsAction::Forward);
    assert_eq!(tabs.selected(), 0);
}

#[test]
fn song_row_shows_tags_or_unknown() {
    let s = song(
        &[
            (StandardTagKey::TrackNumber, Value::UnsignedInt(3)),
            (StandardTagKey::TrackTitle, text("Title")),
        ],
        &[],
        1,
    );
    assert_eq!(song_row(&s), vec!["3", UNKNOWN_STRING, "Title", UNKNOWN_STRING]);
    assert_eq!(UNKNOWN_STRING, "<unknown>");
}

#[test]
fn cache_row_falls_back_to_the_name() {
    let file = CacheEntry::File {
        song: song(&[(StandardTagKey::Artist, text("Artist")), (StandardTagKey::Album, text("Album"))], &[], 1),
    };
    assert_eq!(cache_row("a.flac", &file), vec!["<unknown>", "Artist", "a.flac", "Album"]);
    let directory = CacheEntry::Directory { children: vec![] };
    assert_eq!(cache_row("music", &directory), vec!["", "", "music", ""]);
}

#[test]
fn files_move_the_selection() {
    let mut files = Files::new(vec!["/".to_string()]);
    assert_eq!(files.row(), 0);
    assert!(files.input(Key::Down, false, 40, None).is_none());
    assert_eq!(files.row(), 1);
    files.input(Key::PageDown, false, 40, None);
    assert_eq!(files.row(), 26);
    files.input(Key::PageDown, false, 40, None);
    assert_eq!(files.row(), 39);
    files.input(Key::Down, false, 40, None);
    assert_eq!(files.row(), 39);
    files.input(Key::PageUp, false, 40, None);
    assert_eq!(files.row(), 14);
    files.input(Key::PageUp, false, 40, None);
    assert_eq!(files.row(), 0);
    files.input(Key::Up, false, 40, None);
    assert_eq!(files.row(), 0);
    files.input(Key::End, false, 40, None);
    assert_eq!(files.row(), 39);
    files.input(Key::Home, false, 40, None);
    assert_eq!(files.row(), 0);
    files.input(Key::Down, false, 0, None);
    assert_eq!(files.row(), 0);
    files.input(Key::End, false, 0, None);
    assert_eq!(files.row(), 0);
}

#[test]
fn files_send_player_commands() {
    let mut files = Files::new(vec!["/".to_string()]);
    assert!(matches!(files.input(Key::Char(' '), false, 1, None), Some(Command::PlayPause)));
    assert!(matches!(files.input(Key::Char('n'), false, 1, None), Some(Command::Skip)));
    assert!(matches!(files.input(Key::Char('s'), false, 1, None), Some(Command::Stop)));
    assert!(matches!(files.input(Key::Char('c'), false, 1, None), Some(Command::Clear)));
    assert!(files.input(Key::Char('x'), false, 1, None).is_none());
    assert!(files.input(Key::Other, false, 1, None).is_none());
}

#[test]
fn files_enter_directories_and_enqueue_files() {
    let mut files = Files::new(vec!["/".to_string()]);
    files.input(Key::Down, false, 3, None);
    files.input(Key::Enter, false, 3, Some(Picked::Directory("music".to_string())));
    assert_eq!(files.path, vec!["/", "music"]);
    assert_eq!(files.selected, vec![1, 0]);
    let command = files.input(Key::Enter, false, 3, Some(Picked::File("a.flac".to_string())));
    match command {
        Some(Command::Enqueue(path)) => assert_eq!(path, vec!["/", "music", "a.flac"]),
        other => panic!("expected an enqueue, got {:?}", other),
    }
    assert_eq!(files.path, vec!["/", "music"]);
    assert!(files.input(Key::Enter, false, 0, None).is_none());
    files.input(Key::Backspace, false, 3, None);
    assert_eq!(files.path, vec!["/"]);
    assert_eq!(files.selected, vec![1]);
    files.input(Key::Backspace, false, 3, None);
    assert_eq!(files.path, vec!["/"]);
    assert_eq!(files.selected, vec![1]);
}

#[test]
fn files_filter_line_is_edited_and_applied() {
    let mut files = Files::new(vec!["/".to_string()]);
    files.input(Key::Char('f'), true, 5, None);
    assert!(matches!(&files.filter, FilterState::Active { input, selected: true } if input.is_empty()));
    files.input(Key::Char('a'), false, 5, None);
    files.input(Key::Char('n'), false, 5, None);
    files.input(Key::Char('x'), false, 5, None);
    files.input(Key::Backspace, false, 5, None);
    files.input(Key::Down, false, 5, None);
    assert_eq!(files.row(), 0);
    assert!(matches!(&files.filter, FilterState::Active { input, selected: true } if input == "an"));
    files.input(Key::Enter, false, 5, None);
    assert!(matches!(&files.filter, FilterState::Active { input, selected: false } if input == "an"));
    files.input(Key::Down, false, 5, None);
    assert_eq!(files.row(), 1);
    assert!(matches!(files.input(Key::Char('n'), false, 5, None), Some(Command::Skip)));
    files.input(Key::Char('f'), true, 5, None);
    assert!(matches!(&files.filter, FilterState::Active { input, selected: true } if input == "an"));
    files.input(Key::Backspace, false, 5, None);
    files.input(Key::Backspace, false, 5, None);
    files.input(Key::Backspace, false, 5, None);
    assert!(matches!(&files.filter, FilterState::Active { input, selected: true } if input.is_empty()));
    files.input(Key::Esc, false, 5, None);
    assert!(matches!(files.filter, FilterState::Disabled));
}

#[test]
fn files_clamp_the_selection_to_the_list() {
    let mut files = Files::new(vec!["/".to_string()]);
    files.input(Key::End, false, 10, None);
    files.clamp(4);
    assert_eq!(files.row(), 3);
    files.clamp(4);
    assert_eq!(files.row(), 3);
    files.clamp(0);
    assert_eq!(files.row(), 0);
    files.input(Key::End, false, 10, None);
    assert_eq!(files.shown_row(10), 9);
    assert_eq!(files.shown_row(4), 3);
    assert_eq!(files.shown_row(0), 0);
    assert_eq!(files.row(), 9);
}

#[test]
fn table_offset_keeps_the_selection_in_sight() {
    assert_eq!(offset_for(5, 10, 20), 0);
    assert_eq!(offset_for(5, 100, 20), 0);
    assert_eq!(offset_for(10, 100, 20), 0);
    assert_eq!(offset_for(11, 100, 20), 1);
    assert_eq!(offset_for(50, 100, 20), 40);
    assert_eq!(offset_for(90, 100, 20), 80);
    assert_eq!(offset_for(91, 100, 20), 82);
    assert_eq!(offset_for(99, 100, 20), 82);
    assert_eq!(offset_for(usize::MAX, usize::MAX, 1), usize::MAX);
}

#[test]
fn search_edits_the_keyword() {
    let mut search = Search::new();
    assert!(matches!(search.input(Key::Char('a')), SearchAction::Rank));
    assert!(matches!(search.input(Key::Char('b')), SearchAction::Rank));
    assert_eq!(search.keyword, "ab");
    assert!(matches!(search.input(Key::Backspace), SearchAction::Rank));
    assert_eq!(search.keyword, "a");
    search.set_items(vec![(song(&[], &["/", "a"], 1), vec!["/".to_string(), "a".to_string()])]);
    assert!(matches!(search.input(Key::Backspace), SearchAction::Nothing));
    assert_eq!(search.keyword, "");
    assert!(search.items.is_empty());
    assert!(matches!(search.input(Key::Backspace), SearchAction::Nothing));
    search.input(Key::Char('x'));
    search.set_items(vec![(song(&[], &["/", "a"], 1), vec!["/".to_string(), "a".to_string()])]);
    assert!(matches!(search.input(Key::Esc), SearchAction::Nothing));
    assert_eq!(search.keyword, "");
    assert!(search.items.is_empty());
    assert_eq!(search.selected, 0);
}

#[test]
fn search_selects_and_enqueues() {
    let mut search = Search::new();
    assert!(matches!(search.input(Key::Enter), SearchAction::NothingSelected));
    let items = |n: usize| {
        (0..n)
            .map(|i| {
                let name = format!("{}", i);
                (song(&[], &["/", &name], 1), vec!["/".to_string(), name])
            })
            .collect::<Vec<_>>()
    };
    search.set_items(items(3));
    search.input(Key::Down);
    assert_eq!(search.selected, 1);
    match search.input(Key::Enter) {
        SearchAction::Send(Command::Enqueue(path)) => assert_eq!(path, vec!["/", "1"]),
        other => panic!("expected an enqueue, got {:?}", other),
    }
    search.input(Key::Down);
    search.input(Key::Down);
    search.input(Key::Down);
    assert_eq!(search.selected, 3);
    assert!(matches!(search.input(Key::Enter), SearchAction::NothingSelected));
    search.set_items(items(1));
    assert_eq!(search.selected, 1);
    search.input(Key::Up);
    assert_eq!(search.selected, 0);
    search.input(Key::Up);
    assert_eq!(search.selected, 0);
    assert!(matches!(search.input(Key::Tab), SearchAction::Nothing));
}

#[test]
fn status_shows_progress() {
    let current = song(&[], &["/", "x.flac"], 200);
    let played = PlayTime::new(65, 900_000_000);
    assert_eq!(elapsed_text(played), "01:05");
    assert_eq!(remaining(Some(&current), played), PlayTime::new(134, 100_000_000).unwrap());
    assert_eq!(remaining_text(Some(&current), played), " -02:14");
    let late = Some(PlayTime::from_secs(500));
    assert_eq!(remaining(Some(&current), late), PlayTime::zero());
    assert_eq!(remaining_text(Some(&current), late), " -00:00");
    assert_eq!(elapsed_text(None), "00:00");
    assert_eq!(remaining_text(None, None), " -00:00");
    assert_eq!(remaining_text(Some(&current), None), " -00:00");
    assert_eq!(remaining_text(None, played), " -00:00");
}

#[test]
fn status_follows_the_snapshot() {
    let mut player = Player::new();
    player.opened(song(&[], &["/", "x.flac"], 200), None);
    player.progress(PlayTime::from_secs(61));
    let facade = PlayerFacade::from_player(&player);
    assert_eq!(elapsed_text(facade.playing_duration()), "01:01");
    assert_eq!(remaining_text(facade.current_song(), facade.playing_duration()), " -02:19");
    assert_eq!(now_playing(facade.current_song()).unwrap().title, "x.flac");
    let stopped = PlayerFacade::default();
    assert!(now_playing(stopped.current_song()).is_none());
    assert_eq!(elapsed_text(stopped.playing_duration()), "00:00");
}

#[test]
fn status_names_the_current_song() {
    assert!(now_playing(None).is_none());
    let tagged = song(
        &[(StandardTagKey::TrackTitle, text("Title")), (StandardTagKey::Artist, text("Artist"))],
        &["/", "x.flac"],
        3700,
    );
    let shown = now_playing(Some(&tagged)).unwrap();
    assert_eq!(shown.title, "Title");
    assert_eq!(shown.artist.as_deref(), Some("Artist"));
    assert_eq!(shown.duration, "01:01:40");
    let bare = now_playing(Some(&song(&[], &["/", "x.flac"], 5))).unwrap();
    assert_eq!(bare.title, "x.flac");
    assert_eq!(bare.artist, None);
    assert_eq!(bare.duration, "00:05");
    assert_eq!(now_playing(Some(&song(&[], &[], 5))).unwrap().title, "<unknown>");
    let numbered = song(&[(StandardTagKey::TrackTitle, Value::UnsignedInt(9))], &["/", "x"], 5);
    assert_eq!(now_playing(Some(&numbered)).unwrap().title, "9");
}

#[test]
fn cover_bounds_leave_a_margin() {
    assert_eq!(cover_bounds(0, 10), None);
    assert_eq!(cover_bounds(10, 0), None);
    assert_eq!(cover_bounds(1, 1), Some((0, 0)));
    assert_eq!(cover_bounds(41, 21), Some((80, 40)));
    assert_eq!(cover_bounds(u16::MAX, u16::MAX), Some((131_068, 131_068)));
}

#[test]
fn half_blocks_pair_rows_of_pixels() {
    let black = Rgb { r: 0, g: 0, b: 0 };
    let samples: Vec<u8> = (1..=18).collect();
    let lines = half_blocks(&samples, 2, 3);
    assert_eq!(lines.len(), 2);
    assert_eq!(
        lines[0],
        vec![
            HalfBlock { top: Rgb { r: 1, g: 2, b: 3 }, bottom: Rgb { r: 7, g: 8, b: 9 } },
            HalfBlock { top: Rgb { r: 4, g: 5, b: 6 }, bottom: Rgb { r: 10, g: 11, b: 12 } },
        ]
    );
    assert_eq!(
        lines[1],
        vec![
            HalfBlock { top: Rgb { r: 13, g: 14, b: 15 }, bottom: black },
            HalfBlock { top: Rgb { r: 16, g: 17, b: 18 }, bottom: black },
        ]
    );
}

#[test]
fn half_blocks_are_black_where_samples_run_short() {
    let black = Rgb { r: 0, g: 0, b: 0 };
    let lines = half_blocks(&[9, 9, 9, 1, 2], 2, 2);
    assert_eq!(
        lines,
        vec![vec![
            HalfBlock { top: Rgb { r: 9, g: 9, b: 9 }, bottom: black },
            HalfBlock { top: black, bottom: black },
        ]]
    );
    assert!(half_blocks(&[1, 2, 3], 1, 0).is_empty());
    assert_eq!(half_blocks(&[1, 2, 3], 0, 2), vec![Vec::<HalfBlock>::new()]);
}

#[test]
fn best_first_orders_by_key_and_cuts_at_the_limit() {
    let scored: Vec<(u64, Song, Vec<String>)> = [50u64, 10, 90, 30, 70, 10]
        .iter()
        .enumerate()
        .map(|(i, key)| {
            let name = format!("{}", i);
            (*key, song(&[], &["/", &name], 1), vec!["/".to_string(), name])
        })
        .collect();
    let names = |limit: u64| {
        best_first(&scored, limit)
            .iter()
            .map(|(song, path)| {
                assert_eq!(&song.path, path);
                path[1].clone()
            })
            .collect::<Vec<_>>()
    };
    let all = names(u64::MAX);
    assert_eq!(all.len(), 6);
    assert!(all[..2] == ["1", "5"] || all[..2] == ["5", "1"]);
    assert_eq!(all[2..], ["3", "0", "4", "2"]);
    assert_eq!(names(50)[2..], ["3", "0"]);
    assert_eq!(names(50).len(), 4);
    assert_eq!(names(49).len(), 3);
    assert_eq!(names(10).len(), 2);
    assert!(names(9).is_empty());
    assert!(best_first(&Vec::new(), u64::MAX).is_empty());
}
