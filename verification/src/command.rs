//! The commands the player accepts.

use vstd::prelude::*;
use crate::value::clone_strings;

verus! {

/// The model of a [`Command`].
pub enum CommandModel {
    Play,
    Pause,
    PlayPause,
    Skip,
    Stop,
    Clear,
    Enqueue(Seq<Seq<char>>),
    Dequeue(usize),
}

/// One intent sent to the player. A path is given by its components.
#[derive(Debug)]
pub enum Command {
    /// Resume, or start the next queued song.
    Play,
    /// Pause the current song.
    Pause,
    /// Pause if playing, resume if paused.
    PlayPause,
    /// Stop the current song and start the next queued one.
    Skip,
    /// Stop the current song.
    Stop,
    /// Empty the queue and stop.
    Clear,
    /// Add the path to the end of the queue.
    Enqueue(Vec<String>),
    /// Remove the queue entry at the index.
    Dequeue(usize),
}

impl View for Command {
    type V = CommandModel;

    open spec fn view(&self) -> CommandModel {
        match self {
            Command::Play => CommandModel::Play,
            Command::Pause => CommandModel::Pause,
            Command::PlayPause => CommandModel::PlayPause,
            Command::Skip => CommandModel::Skip,
            Command::Stop => CommandModel::Stop,
            Command::Clear => CommandModel::Clear,
            Command::Enqueue(path) => CommandModel::Enqueue(path.deep_view()),
            Command::Dequeue(index) => CommandModel::Dequeue(*index),
        }
    }
}

impl DeepView for Command {
    type V = CommandModel;

    open spec fn deep_view(&self) -> CommandModel {
        self@
    }
}

impl Clone for Command {
    fn clone(&self) -> (copy: Self)
        ensures
            copy@ == self@,
    {
        match self {
            Command::Play => Command::Play,
            Command::Pause => Command::Pause,
            Command::PlayPause => Command::PlayPause,
            Command::Skip => Command::Skip,
            Command::Stop => Command::Stop,
            Command::Clear => Command::Clear,
            Command::Enqueue(path) => Command::Enqueue(clone_strings(path)),
            Command::Dequeue(index) => Command::Dequeue(*index),
        }
    }
}

} // verus!
