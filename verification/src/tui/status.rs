//! The status bar: what it says of the current song and of its progress.

use vstd::prelude::*;
use vstd::string::StringExecFns;
use crate::keys::StandardTagKey;
use crate::song::{Song, SongModel};
use crate::time::PlayTime;
use crate::tui::{clock_text, format_duration, UNKNOWN_STRING};

verus! {

/// The whole seconds that the bar counts as played: none where no song is
/// current.
pub open spec fn elapsed_secs(played: Option<PlayTime>) -> nat {
    match played {
        Some(time) => time.spec_secs(),
        None => 0,
    }
}

/// The time played so far, as a clock reading.
pub fn elapsed_text(played: Option<PlayTime>) -> (text: String)
    ensures
        text@ == clock_text(elapsed_secs(played)),
{
    match played {
        Some(time) => format_duration(time),
        None => format_duration(PlayTime::zero()),
    }
}

/// What is left of a song, in nanoseconds: its duration less what has
/// played, and nothing where more has played than it lasts or no song is
/// current.
pub open spec fn remaining_nanos(song: Option<SongModel>, played: Option<PlayTime>) -> nat {
    match (song, played) {
        (Some(s), Some(time)) => if s.duration.total_nanos() >= time.total_nanos() {
            (s.duration.total_nanos() - time.total_nanos()) as nat
        } else {
            0
        },
        _ => 0,
    }
}

/// What is left of the current song.
pub fn remaining(song: Option<&Song>, played: Option<PlayTime>) -> (left: PlayTime)
    ensures
        left.total_nanos() == remaining_nanos(song.deep_view(), played),
{
    match (song, played) {
        (Some(s), Some(time)) => s.duration.saturating_sub(&time),
        _ => PlayTime::zero(),
    }
}

/// The time left, as the bar shows it: a space, a minus sign and a clock
/// reading of its whole seconds.
pub fn remaining_text(song: Option<&Song>, played: Option<PlayTime>) -> (text: String)
    ensures
        text@ == " -"@ + clock_text(remaining_nanos(song.deep_view(), played) / 1_000_000_000),
{
    let left = remaining(song, played);
    let secs: u64 = left.as_secs();
    assert(left.spec_secs() == remaining_nanos(song.deep_view(), played) / 1_000_000_000);
    let mut text = String::new();
    text.append(" -");
    let clock = format_duration(left);
    text.append(clock.as_str());
    text
}

/// The title that the bar shows for a song: the text of its title tag;
/// without one the last component of its path; without either the word for
/// unknown.
pub open spec fn shown_title(song: SongModel) -> Seq<char> {
    if song.standard_tags.contains_key(StandardTagKey::TrackTitle) {
        song.standard_tags[StandardTagKey::TrackTitle].text()
    } else if song.path.len() > 0 {
        song.path.last()
    } else {
        UNKNOWN_STRING@
    }
}

/// The artist that the bar shows for a song: the text of its artist tag, if
/// it has one.
pub open spec fn shown_artist(song: SongModel) -> Option<Seq<char>> {
    if song.standard_tags.contains_key(StandardTagKey::Artist) {
        Some(song.standard_tags[StandardTagKey::Artist].text())
    } else {
        None
    }
}

/// The model of a [`NowPlaying`].
pub struct NowPlayingModel {
    pub artist: Option<Seq<char>>,
    pub title: Seq<char>,
    pub duration: Seq<char>,
}

/// What the bar says of the current song.
#[derive(Debug)]
pub struct NowPlaying {
    pub artist: Option<String>,
    pub title: String,
    /// How long the song lasts, as a clock reading.
    pub duration: String,
}

impl View for NowPlaying {
    type V = NowPlayingModel;

    open spec fn view(&self) -> NowPlayingModel {
        NowPlayingModel {
            artist: self.artist.deep_view(),
            title: self.title@,
            duration: self.duration@,
        }
    }
}

impl DeepView for NowPlaying {
    type V = NowPlayingModel;

    open spec fn deep_view(&self) -> NowPlayingModel {
        self@
    }
}

/// What the bar is to say of a song.
pub open spec fn now_playing_of(song: Option<SongModel>) -> Option<NowPlayingModel> {
    match song {
        Some(s) => Some(
            NowPlayingModel {
                artist: shown_artist(s),
                title: shown_title(s),
                duration: clock_text(s.duration.spec_secs()),
            },
        ),
        None => None,
    }
}

/// What the bar says of the current song; nothing where none is current.
pub fn now_playing(song: Option<&Song>) -> (shown: Option<NowPlaying>)
    ensures
        shown.deep_view() == now_playing_of(song.deep_view()),
{
    match song {
        None => None,
        Some(song) => {
            let title = match song.standard_tags.get(StandardTagKey::TrackTitle) {
                Some(value) => value.text(),
                None => {
                    let n: usize = song.path.len();
                    if n > 0 {
                        song.path[n - 1].clone()
                    } else {
                        UNKNOWN_STRING.to_owned()
                    }
                },
            };
            let artist = match song.standard_tags.get(StandardTagKey::Artist) {
                Some(value) => Some(value.text()),
                None => None,
            };
            Some(NowPlaying { artist, title, duration: format_duration(song.duration) })
        },
    }
}

} // verus!
