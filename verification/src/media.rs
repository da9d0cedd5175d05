//! The bridge to the system's media controls: which command a media key
//! stands for, and what the system is told of a snapshot.

use vstd::prelude::*;
use vstd::string::StringExecFns;
use crate::command::{Command, CommandModel};
use crate::facade::PlayerFacade;
use crate::keys::StandardTagKey;
use crate::player::StatusModel;
use crate::time::PlayTime;

verus! {

/// An event of the system's media controls.
#[derive(Clone, Copy, Debug, PartialEq, Eq, Structural)]
pub enum MediaEvent {
    Play,
    Pause,
    Toggle,
    Next,
    Previous,
    Stop,
    Seek,
    SeekBy,
    SetPosition,
    OpenUri,
    Raise,
    Quit,
}

/// The command that a media event stands for. Events for which the player
/// has no command stand for none.
pub open spec fn command_of(event: MediaEvent) -> Option<CommandModel> {
    match event {
        MediaEvent::Play => Some(CommandModel::Play),
        MediaEvent::Pause => Some(CommandModel::Pause),
        MediaEvent::Toggle => Some(CommandModel::PlayPause),
        MediaEvent::Next => Some(CommandModel::Skip),
        MediaEvent::Stop => Some(CommandModel::Stop),
        MediaEvent::Previous
        | MediaEvent::Seek
        | MediaEvent::SeekBy
        | MediaEvent::SetPosition
        | MediaEvent::OpenUri
        | MediaEvent::Raise
        | MediaEvent::Quit => None,
    }
}

/// Gives the command to send to the player for a media event, if it
/// stands for one.
pub fn command_for(event: MediaEvent) -> (command: Option<Command>)
    ensures
        command.deep_view() == command_of(event),
{
    match event {
        MediaEvent::Play => Some(Command::Play),
        MediaEvent::Pause => Some(Command::Pause),
        MediaEvent::Toggle => Some(Command::PlayPause),
        MediaEvent::Next => Some(Command::Skip),
        MediaEvent::Stop => Some(Command::Stop),
        MediaEvent::Previous => None,
        MediaEvent::Seek => None,
        MediaEvent::SeekBy => None,
        MediaEvent::SetPosition => None,
        MediaEvent::OpenUri => None,
        MediaEvent::Raise => None,
        MediaEvent::Quit => None,
    }
}

/// What the system is told of the playback state.
#[derive(Clone, Copy, Debug, PartialEq, Eq, Structural)]
pub enum MediaPlayback {
    Stopped,
    Paused { progress: Option<PlayTime> },
    Playing { progress: Option<PlayTime> },
}

/// The playback state that a status amounts to: stopped, or paused or
/// playing at the point the song has reached.
pub open spec fn playback_state(status: StatusModel) -> MediaPlayback {
    match status {
        StatusModel::Stopped => MediaPlayback::Stopped,
        StatusModel::PlayingOrPaused { playing_duration, paused, .. } => if paused {
            MediaPlayback::Paused { progress: Some(playing_duration) }
        } else {
            MediaPlayback::Playing { progress: Some(playing_duration) }
        },
    }
}

/// The playback state to tell the system for a snapshot.
pub fn playback_of(facade: &PlayerFacade) -> (playback: MediaPlayback)
    ensures
        playback == playback_state(facade@.status),
{
    match (facade.paused(), facade.playing_duration()) {
        (Some(true), Some(progress)) => MediaPlayback::Paused { progress: Some(progress) },
        (Some(false), Some(progress)) => MediaPlayback::Playing { progress: Some(progress) },
        _ => MediaPlayback::Stopped,
    }
}

/// The model of a [`MediaMetadata`].
pub struct MediaMetadataModel {
    pub title: Option<Seq<char>>,
    pub album: Option<Seq<char>>,
    pub artist: Option<Seq<char>>,
    pub cover_url: Option<Seq<char>>,
    pub duration: Option<PlayTime>,
}

/// What the system is told of the current song.
#[derive(Debug)]
pub struct MediaMetadata {
    pub title: Option<String>,
    pub album: Option<String>,
    pub artist: Option<String>,
    pub cover_url: Option<String>,
    pub duration: Option<PlayTime>,
}

impl View for MediaMetadata {
    type V = MediaMetadataModel;

    open spec fn view(&self) -> MediaMetadataModel {
        MediaMetadataModel {
            title: self.title.deep_view(),
            album: self.album.deep_view(),
            artist: self.artist.deep_view(),
            cover_url: self.cover_url.deep_view(),
            duration: self.duration,
        }
    }
}

/// The address of the file at `path`, as the system wants a cover named.
pub open spec fn file_url(path: Seq<char>) -> Seq<char> {
    "file://"@ + path
}

/// What to tell the system of a status when the cover has been written to
/// the file at `cover_path`: title, album and artist of the current song as
/// far as its tags hold them as text, its duration, and the cover's address.
/// Of a stopped player only the cover's address is told.
pub open spec fn metadata_for(status: StatusModel, cover_path: Seq<char>) -> MediaMetadataModel {
    match status {
        StatusModel::PlayingOrPaused { song, .. } => MediaMetadataModel {
            title: song.tag_text(StandardTagKey::TrackTitle),
            album: song.tag_text(StandardTagKey::Album),
            artist: song.tag_text(StandardTagKey::Artist),
            cover_url: Some(file_url(cover_path)),
            duration: Some(song.duration),
        },
        StatusModel::Stopped => MediaMetadataModel {
            title: None,
            album: None,
            artist: None,
            cover_url: Some(file_url(cover_path)),
            duration: None,
        },
    }
}

fn owned(text: Option<&str>) -> (copy: Option<String>)
    ensures
        match (text, copy) {
            (Some(t), Some(c)) => c@ == t@,
            (None, None) => true,
            _ => false,
        },
{
    match text {
        Some(t) => Some(t.to_owned()),
        None => None,
    }
}

/// The metadata to tell the system for a snapshot.
pub fn metadata_of(facade: &PlayerFacade, cover_path: &str) -> (metadata: MediaMetadata)
    ensures
        metadata@ == metadata_for(facade@.status, cover_path@),
{
    let mut url = String::new();
    url.append("file://");
    url.append(cover_path);
    assert(url@ =~= file_url(cover_path@));
    match facade.current_song() {
        Some(song) => MediaMetadata {
            title: owned(song.tag_string(StandardTagKey::TrackTitle)),
            album: owned(song.tag_string(StandardTagKey::Album)),
            artist: owned(song.tag_string(StandardTagKey::Artist)),
            cover_url: Some(url),
            duration: Some(song.duration),
        },
        None => MediaMetadata {
            title: None,
            album: None,
            artist: None,
            cover_url: Some(url),
            duration: None,
        },
    }
}

} // verus!
