//! The snapshot of the player that readers get: a copy of the status and of
//! the queue, made after each command and never changed afterwards.

use vstd::prelude::*;
use crate::player::{cover_of, Player, PlayerStatus, StatusModel};
use crate::song::Song;
use crate::time::PlayTime;

verus! {

/// The model of a [`PlayerFacade`].
pub struct FacadeModel {
    pub status: StatusModel,
    pub queue: Seq<Seq<Seq<char>>>,
}

/// A snapshot of the player.
#[derive(Debug)]
pub struct PlayerFacade {
    pub status: PlayerStatus,
    pub queue: Vec<Vec<String>>,
}

impl View for PlayerFacade {
    type V = FacadeModel;

    open spec fn view(&self) -> FacadeModel {
        FacadeModel { status: self.status@, queue: self.queue.deep_view() }
    }
}

impl Default for PlayerFacade {
    /// The snapshot of a player that has done nothing yet.
    fn default() -> (facade: Self)
        ensures
            facade@.status is Stopped,
            facade@.queue.len() == 0,
    {
        PlayerFacade { status: PlayerStatus::Stopped, queue: Vec::new() }
    }
}

impl PlayerFacade {
    /// The snapshot of `player` as it is now: its status and its queue, and
    /// so either stopped or with the one stream that the player holds.
    pub fn from_player(player: &Player) -> (facade: PlayerFacade)
        ensures
            facade@.status == player@.status,
            facade@.queue == player@.queue,
            facade@.status.streams() <= 1,
    {
        PlayerFacade { status: player.status.clone(), queue: player.nexts() }
    }

    /// The current song, if one is current.
    pub fn current_song(&self) -> (song: Option<&Song>)
        ensures
            match song {
                Some(s) => self@.status matches StatusModel::PlayingOrPaused { song: current, .. }
                    && current == s@,
                None => self@.status is Stopped,
            },
    {
        match &self.status {
            PlayerStatus::PlayingOrPaused { song, .. } => Some(song),
            PlayerStatus::Stopped => None,
        }
    }

    /// How far the current song had played when the snapshot was made.
    pub fn playing_duration(&self) -> (time: Option<PlayTime>)
        ensures
            match time {
                Some(t) => self@.status matches StatusModel::PlayingOrPaused {
                    playing_duration,
                    ..
                } && playing_duration == t,
                None => self@.status is Stopped,
            },
    {
        match &self.status {
            PlayerStatus::PlayingOrPaused { playing_duration, .. } => Some(*playing_duration),
            PlayerStatus::Stopped => None,
        }
    }

    /// Whether the current song is paused; nothing when none is current.
    pub fn paused(&self) -> (flag: Option<bool>)
        ensures
            match flag {
                Some(p) => self@.status matches StatusModel::PlayingOrPaused { paused, .. }
                    && paused == p,
                None => self@.status is Stopped,
            },
    {
        match &self.status {
            PlayerStatus::PlayingOrPaused { paused, .. } => Some(*paused),
            PlayerStatus::Stopped => None,
        }
    }

    /// The front cover of the current song, if one is current and has one.
    pub fn current_cover(&self) -> (cover: Option<&Vec<u8>>)
        ensures
            match cover {
                Some(data) => cover_of(self@.status) == Some(data@),
                None => cover_of(self@.status) is None,
            },
    {
        match &self.status {
            PlayerStatus::PlayingOrPaused { metadata: Some(metadata), .. } => metadata.front_cover(),
            _ => None,
        }
    }
}

} // verus!
