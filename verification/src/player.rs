//! The player: the play/pause/stop state machine and the queue of pending
//! songs, changed by one command at a time.
//!
//! The player decides; it touches no device. Where a command calls for a new
//! output stream it answers with [`Directive::Open`], and whoever drives it
//! loads the song, opens the stream, and reports back with
//! [`Player::opened`] or [`Player::open_failed`].

use std::collections::VecDeque;
use vstd::prelude::*;
use crate::cache::{Cache, CacheEntry, CacheError};
use crate::command::{Command, CommandModel};
use crate::loader::LoadError;
use crate::song::{Song, SongModel};
use crate::time::PlayTime;
use crate::value::{clone_strings, front_cover_of, Metadata, VisualModel};

verus! {

/// Why a command had no effect, or only part of it.
#[derive(Clone, Copy, Debug, PartialEq, Eq, Structural)]
pub enum CommandError {
    /// `Dequeue` named an index the queue does not have.
    IndexOutOfRange { index: usize, len: usize },
    /// The path taken from the queue is not in the cache.
    SongNotFound,
    /// The cache refused the path taken from the queue.
    Lookup(CacheError),
}

/// Why no output stream came to be for a song.
#[derive(Clone, Copy, Debug, PartialEq, Eq, Structural)]
pub enum OpenError {
    /// The song could not be loaded.
    Load(LoadError),
    /// The output device could not be opened.
    Device,
}

/// The model of a [`PlayerStatus`].
pub enum StatusModel {
    PlayingOrPaused {
        song: SongModel,
        metadata: Option<Seq<VisualModel>>,
        playing_duration: PlayTime,
        paused: bool,
    },
    Stopped,
}

/// Whether a song is current, and if so which, how far it has played, and
/// whether it is paused. `PlayingOrPaused` stands for exactly one open output
/// stream, `Stopped` for none.
#[derive(Debug)]
pub enum PlayerStatus {
    PlayingOrPaused {
        song: Song,
        metadata: Option<Metadata>,
        playing_duration: PlayTime,
        paused: bool,
    },
    Stopped,
}

impl View for PlayerStatus {
    type V = StatusModel;

    open spec fn view(&self) -> StatusModel {
        match self {
            PlayerStatus::PlayingOrPaused { song, metadata, playing_duration, paused } => {
                StatusModel::PlayingOrPaused {
                    song: song@,
                    metadata: metadata.deep_view(),
                    playing_duration: *playing_duration,
                    paused: *paused,
                }
            },
            PlayerStatus::Stopped => StatusModel::Stopped,
        }
    }
}

impl Clone for PlayerStatus {
    fn clone(&self) -> (copy: Self)
        ensures
            copy@ == self@,
    {
        match self {
            PlayerStatus::PlayingOrPaused { song, metadata, playing_duration, paused } => {
                let metadata = match metadata {
                    Some(m) => Some(m.clone()),
                    None => None,
                };
                PlayerStatus::PlayingOrPaused {
                    song: song.clone(),
                    metadata,
                    playing_duration: *playing_duration,
                    paused: *paused,
                }
            },
            PlayerStatus::Stopped => PlayerStatus::Stopped,
        }
    }
}

impl StatusModel {
    /// The number of output streams that the status stands for.
    pub open spec fn streams(self) -> nat {
        match self {
            StatusModel::PlayingOrPaused { .. } => 1,
            StatusModel::Stopped => 0,
        }
    }

    /// The status with the pause flag set to `paused`; `Stopped` has none.
    pub open spec fn with_paused(self, paused: bool) -> StatusModel {
        match self {
            StatusModel::PlayingOrPaused { song, metadata, playing_duration, paused: _ } => {
                StatusModel::PlayingOrPaused { song, metadata, playing_duration, paused }
            },
            StatusModel::Stopped => StatusModel::Stopped,
        }
    }

    /// The status with the played duration set to `played`; `Stopped` has
    /// none.
    pub open spec fn with_played(self, played: PlayTime) -> StatusModel {
        match self {
            StatusModel::PlayingOrPaused { song, metadata, playing_duration: _, paused } => {
                StatusModel::PlayingOrPaused { song, metadata, playing_duration: played, paused }
            },
            StatusModel::Stopped => StatusModel::Stopped,
        }
    }
}

/// The model of a [`Directive`].
pub enum DirectiveModel {
    Publish,
    Open(SongModel),
}

/// What the driver of the player has to do after a step.
#[derive(Debug)]
pub enum Directive {
    /// The step is complete: bring the device in line with the status (no
    /// stream when stopped, the pause flag as the status has it) and publish
    /// a snapshot.
    Publish,
    /// The player is stopped and has taken this song from the queue: close
    /// the stream that is still open, if any, load the song and open a stream
    /// for it, then report with `opened` or `open_failed`.
    Open(Song),
}

impl View for Directive {
    type V = DirectiveModel;

    open spec fn view(&self) -> DirectiveModel {
        match self {
            Directive::Publish => DirectiveModel::Publish,
            Directive::Open(song) => DirectiveModel::Open(song@),
        }
    }
}

/// The model of a step's result.
pub open spec fn result_model(result: Result<Directive, CommandError>) -> Result<
    DirectiveModel,
    CommandError,
> {
    match result {
        Ok(directive) => Ok(directive@),
        Err(error) => Err(error),
    }
}

/// The model of a [`Player`]: its status and the paths that wait.
pub struct PlayerModel {
    pub status: StatusModel,
    pub queue: Seq<Seq<Seq<char>>>,
}

/// A state together with the result of the step that led to it.
pub struct Step {
    pub state: PlayerModel,
    pub result: Result<DirectiveModel, CommandError>,
}

/// The song that `cache` has for a path taken from the queue, or why it has
/// none.
pub open spec fn resolve(cache: &Cache, path: Seq<Seq<char>>) -> Result<SongModel, CommandError> {
    match cache.entry_at(path) {
        Ok(Some(CacheEntry::File { song })) => Ok(song@),
        Ok(Some(CacheEntry::Directory { .. })) => Err(CommandError::Lookup(CacheError::NotAFile)),
        Ok(None) => Err(CommandError::SongNotFound),
        Err(e) => Err(CommandError::Lookup(e)),
    }
}

impl PlayerModel {
    /// The state that keeps the status and the queue and asks for nothing.
    pub open spec fn stay(self) -> Step {
        Step { state: self, result: Ok(DirectiveModel::Publish) }
    }

    /// `Play`: resume the current song; or, when stopped, take the first
    /// path from the queue and ask for its song to be opened. A path that the
    /// cache has no song for is dropped and reported.
    pub open spec fn play(self, cache: &Cache) -> Step {
        match self.status {
            StatusModel::PlayingOrPaused { .. } => PlayerModel {
                status: self.status.with_paused(false),
                queue: self.queue,
            }.stay(),
            StatusModel::Stopped => if self.queue.len() == 0 {
                self.stay()
            } else {
                Step {
                    state: PlayerModel {
                        status: StatusModel::Stopped,
                        queue: self.queue.drop_first(),
                    },
                    result: match resolve(cache, self.queue[0]) {
                        Ok(song) => Ok(DirectiveModel::Open(song)),
                        Err(e) => Err(e),
                    },
                }
            },
        }
    }

    /// `Pause`: set the pause flag of the current song.
    pub open spec fn pause(self) -> Step {
        PlayerModel { status: self.status.with_paused(true), queue: self.queue }.stay()
    }

    /// `PlayPause`: flip the pause flag of the current song.
    pub open spec fn play_pause(self) -> Step {
        match self.status {
            StatusModel::PlayingOrPaused { paused, .. } => PlayerModel {
                status: self.status.with_paused(!paused),
                queue: self.queue,
            }.stay(),
            StatusModel::Stopped => self.stay(),
        }
    }

    /// `Stop`: no song is current any more; the queue stays.
    pub open spec fn stop(self) -> Step {
        PlayerModel { status: StatusModel::Stopped, queue: self.queue }.stay()
    }

    /// `Skip`: stop, then play.
    pub open spec fn skip(self, cache: &Cache) -> Step {
        self.stop().state.play(cache)
    }

    /// `Clear`: empty the queue, then stop.
    pub open spec fn clear(self) -> Step {
        PlayerModel { status: StatusModel::Stopped, queue: Seq::empty() }.stay()
    }

    /// `Enqueue`: add the path to the end of the queue; when stopped, go on
    /// to play.
    pub open spec fn enqueue(self, cache: &Cache, path: Seq<Seq<char>>) -> Step {
        let pushed = PlayerModel { status: self.status, queue: self.queue.push(path) };
        match self.status {
            StatusModel::Stopped => pushed.play(cache),
            StatusModel::PlayingOrPaused { .. } => pushed.stay(),
        }
    }

    /// `Dequeue`: remove the queue entry at `index`; out of range, report it
    /// and change nothing.
    pub open spec fn dequeue(self, index: usize) -> Step {
        if index < self.queue.len() {
            PlayerModel { status: self.status, queue: self.queue.remove(index as int) }.stay()
        } else {
            Step {
                state: self,
                result: Err(
                    CommandError::IndexOutOfRange { index, len: self.queue.len() as usize },
                ),
            }
        }
    }

    /// The step that `command` makes from this state.
    pub open spec fn handle(self, cache: &Cache, command: CommandModel) -> Step {
        match command {
            CommandModel::Play => self.play(cache),
            CommandModel::Pause => self.pause(),
            CommandModel::PlayPause => self.play_pause(),
            CommandModel::Skip => self.skip(cache),
            CommandModel::Stop => self.stop(),
            CommandModel::Clear => self.clear(),
            CommandModel::Enqueue(path) => self.enqueue(cache, path),
            CommandModel::Dequeue(index) => self.dequeue(index),
        }
    }

    /// The stream asked for with `Open(song)` is there: the song is current,
    /// from its start and not paused. A song that was current gives way.
    pub open spec fn opened(self, song: SongModel, metadata: Option<Seq<VisualModel>>) -> PlayerModel {
        PlayerModel {
            status: StatusModel::PlayingOrPaused {
                song,
                metadata,
                playing_duration: PlayTime::zero_time(),
                paused: false,
            },
            queue: self.queue,
        }
    }

    /// The stream asked for with `Open` did not come to be. A song that
    /// failed to load is passed over: the player goes on to the next path
    /// in the queue. A device that failed ends the attempt: the player stays
    /// stopped and keeps its queue.
    pub open spec fn open_failed(self, cache: &Cache, error: OpenError) -> Step {
        match (error, self.status) {
            (OpenError::Load(_), StatusModel::Stopped) => self.play(cache),
            _ => self.stay(),
        }
    }
}

impl StatusModel {
    /// Whether this status holds the same stream as `before`: the same
    /// song with the same metadata, played as far.
    pub open spec fn same_stream(self, before: StatusModel) -> bool {
        match (self, before) {
            (
                StatusModel::PlayingOrPaused { song, metadata, playing_duration, .. },
                StatusModel::PlayingOrPaused {
                    song: song_before,
                    metadata: metadata_before,
                    playing_duration: played_before,
                    ..
                },
            ) => song == song_before && metadata == metadata_before && playing_duration
                == played_before,
            _ => false,
        }
    }
}

/// At most one stream: no command makes a stream. After a command the
/// player holds the stream it held before, or none; and where the command
/// asks for a song to be opened, the player holds none. Only `opened` makes
/// a stream, and it leaves exactly one.
pub proof fn lemma_at_most_one_stream(
    state: PlayerModel,
    cache: &Cache,
    command: CommandModel,
    song: SongModel,
    metadata: Option<Seq<VisualModel>>,
)
    ensures
        state.handle(cache, command).state.status is Stopped || state.handle(
            cache,
            command,
        ).state.status.same_stream(state.status),
        state.handle(cache, command).result matches Ok(DirectiveModel::Open(_))
            ==> state.handle(cache, command).state.status is Stopped,
        state.handle(cache, command).state.status.streams() <= 1,
        state.opened(song, metadata).status.streams() == 1,
{
}

/// A failed attempt to open a stream makes no stream either: the player
/// holds the stream it held before, or none, and none where it asks for the
/// next song to be opened.
pub proof fn lemma_open_failed_makes_no_stream(state: PlayerModel, cache: &Cache, error: OpenError)
    ensures
        state.open_failed(cache, error).state.status == state.status,
        state.open_failed(cache, error).result matches Ok(DirectiveModel::Open(_))
            ==> state.status is Stopped,
{
}

/// Pause is idempotent: a second `Pause` changes nothing, `Pause` on a
/// paused player changes nothing, and after `Pause` the current song is
/// paused and has played as far as before.
pub proof fn lemma_pause_idempotent(state: PlayerModel)
    ensures
        state.pause().state.pause() == state.pause(),
        state.status matches StatusModel::PlayingOrPaused { paused: true, .. }
            ==> state.pause().state == state,
        state.status is PlayingOrPaused ==> state.pause().state.status.same_stream(state.status)
            && state.pause().state.status->paused,
        state.pause().state.queue == state.queue,
{
}

/// The queue is first in, first out: on a stopped player with an empty
/// queue, enqueueing `first` asks for its song to be opened; once that is
/// open, enqueueing `second` and then `Play` leave the first song current and
/// `second` alone in the queue.
pub proof fn lemma_queue_fifo(
    cache: &Cache,
    first: Seq<Seq<char>>,
    second: Seq<Seq<char>>,
    song: SongModel,
    metadata: Option<Seq<VisualModel>>,
)
    requires
        resolve(cache, first) == Ok::<SongModel, CommandError>(song),
    ensures
        ({
            let start = PlayerModel { status: StatusModel::Stopped, queue: Seq::empty() };
            let asked = start.enqueue(cache, first);
            let playing = asked.state.opened(song, metadata);
            let end = playing.enqueue(cache, second).state.play(cache);
            &&& asked.result == Ok::<DirectiveModel, CommandError>(DirectiveModel::Open(song))
            &&& asked.state.status is Stopped
            &&& asked.state.queue == Seq::<Seq<Seq<char>>>::empty()
            &&& end.result == Ok::<DirectiveModel, CommandError>(DirectiveModel::Publish)
            &&& end.state.status == playing.status
            &&& end.state.status matches StatusModel::PlayingOrPaused { song: current, .. }
                && current == song
            &&& end.state.queue == seq![second]
        }),
{
    let start = PlayerModel { status: StatusModel::Stopped, queue: Seq::empty() };
    assert(start.queue.push(first).drop_first() =~= Seq::<Seq<Seq<char>>>::empty());
    assert(start.queue.push(first)[0] == first);
    let asked = start.enqueue(cache, first);
    let playing = asked.state.opened(song, metadata);
    assert(playing.queue.push(second) =~= seq![second]);
}

/// `Skip` is `Stop` followed by `Play`, and after it nothing of the song
/// that was current is left: the player is stopped, and asks for the next
/// song if the queue has one that the cache knows.
pub proof fn lemma_skip_is_stop_then_play(state: PlayerModel, cache: &Cache)
    ensures
        state.skip(cache) == state.stop().state.play(cache),
        state.skip(cache).state.status is Stopped,
        state.queue.len() == 0 ==> state.skip(cache).state.queue.len() == 0 && state.skip(
            cache,
        ).result == Ok::<DirectiveModel, CommandError>(DirectiveModel::Publish),
        state.queue.len() > 0 ==> state.skip(cache).state.queue == state.queue.drop_first(),
{
}

/// `Dequeue` out of range changes nothing and says so; in range it removes
/// one entry and keeps the others in their order.
pub proof fn lemma_dequeue(state: PlayerModel, index: usize)
    ensures
        index >= state.queue.len() ==> state.dequeue(index).state == state && state.dequeue(
            index,
        ).result is Err,
        index < state.queue.len() ==> state.dequeue(index).result is Ok && state.dequeue(
            index,
        ).state.queue.len() == state.queue.len() - 1,
        state.dequeue(index).state.status == state.status,
{
}

/// The model of what the player takes in: a command, or the outcome of an
/// attempt to open a stream.
pub enum EventModel {
    Command(CommandModel),
    Opened(SongModel, Option<Seq<VisualModel>>),
    OpenFailed(OpenError),
}

/// What the player takes in: a command, or the outcome of an attempt to
/// open a stream.
#[derive(Debug)]
pub enum Event {
    Command(Command),
    Opened(Song, Option<Metadata>),
    OpenFailed(OpenError),
}

impl View for Event {
    type V = EventModel;

    open spec fn view(&self) -> EventModel {
        match self {
            Event::Command(command) => EventModel::Command(command@),
            Event::Opened(song, metadata) => EventModel::Opened(song@, metadata.deep_view()),
            Event::OpenFailed(error) => EventModel::OpenFailed(*error),
        }
    }
}

impl PlayerModel {
    /// What the step for `event` answers: an opened stream asks for
    /// nothing more.
    pub open spec fn answer(self, cache: &Cache, event: EventModel) -> Result<
        DirectiveModel,
        CommandError,
    > {
        match event {
            EventModel::Command(command) => self.handle(cache, command).result,
            EventModel::Opened(_, _) => Ok(DirectiveModel::Publish),
            EventModel::OpenFailed(error) => self.open_failed(cache, error).result,
        }
    }

    /// The state after `event`.
    pub open spec fn apply(self, cache: &Cache, event: EventModel) -> PlayerModel {
        match event {
            EventModel::Command(command) => self.handle(cache, command).state,
            EventModel::Opened(song, metadata) => self.opened(song, metadata),
            EventModel::OpenFailed(error) => self.open_failed(cache, error).state,
        }
    }

    /// The state after `events`, taken one at a time in their order.
    pub open spec fn run(self, cache: &Cache, events: Seq<EventModel>) -> PlayerModel
        decreases events.len(),
    {
        if events.len() == 0 {
            self
        } else {
            self.run(cache, events.drop_last()).apply(cache, events.last())
        }
    }
}

/// Whether `merged` interleaves `a` and `b`: it holds the events of both
/// and keeps those of each in their order.
pub open spec fn is_merge(merged: Seq<EventModel>, a: Seq<EventModel>, b: Seq<EventModel>) -> bool
    decreases merged.len(),
{
    if merged.len() == 0 {
        a.len() == 0 && b.len() == 0
    } else {
        ||| (a.len() > 0 && a.last() == merged.last() && is_merge(
            merged.drop_last(),
            a.drop_last(),
            b,
        ))
        ||| (b.len() > 0 && b.last() == merged.last() && is_merge(
            merged.drop_last(),
            a,
            b.drop_last(),
        ))
    }
}

/// Events are applied one at a time, each to completion: the state after
/// two runs of events on end is the state after the second run, begun where
/// the first left off.
pub proof fn lemma_run_in_sequence(
    state: PlayerModel,
    cache: &Cache,
    first: Seq<EventModel>,
    second: Seq<EventModel>,
)
    ensures
        state.run(cache, first + second) == state.run(cache, first).run(cache, second),
    decreases second.len(),
{
    if second.len() == 0 {
        assert(first + second =~= first);
    } else {
        assert((first + second).drop_last() =~= first + second.drop_last());
        assert((first + second).last() == second.last());
        lemma_run_in_sequence(state, cache, first, second.drop_last());
    }
}

/// Whatever the order in which the events of two senders reach the player,
/// the state it ends in is that of one sequence of all their events which
/// keeps the order of each sender.
pub proof fn lemma_serial_order(
    state: PlayerModel,
    cache: &Cache,
    a: Seq<EventModel>,
    b: Seq<EventModel>,
    received: Seq<EventModel>,
)
    requires
        is_merge(received, a, b),
    ensures
        exists|order: Seq<EventModel>|
            is_merge(order, a, b) && order.len() == a.len() + b.len() && state.run(cache, received)
                == #[trigger] state.run(cache, order),
{
    lemma_merge_len(received, a, b);
    let end = state.run(cache, received);
    assert(is_merge(received, a, b) && received.len() == a.len() + b.len() && end == state.run(
        cache,
        received,
    ));
}

/// An interleaving is as long as its two parts together.
pub proof fn lemma_merge_len(merged: Seq<EventModel>, a: Seq<EventModel>, b: Seq<EventModel>)
    requires
        is_merge(merged, a, b),
    ensures
        merged.len() == a.len() + b.len(),
    decreases merged.len(),
{
    if merged.len() > 0 {
        if a.len() > 0 && a.last() == merged.last() && is_merge(
            merged.drop_last(),
            a.drop_last(),
            b,
        ) {
            lemma_merge_len(merged.drop_last(), a.drop_last(), b);
        } else {
            lemma_merge_len(merged.drop_last(), a, b.drop_last());
        }
    }
}

/// The player: the only holder of the status and of the queue.
#[derive(Debug)]
pub struct Player {
    pub status: PlayerStatus,
    pub queue: VecDeque<Vec<String>>,
}

impl View for Player {
    type V = PlayerModel;

    open spec fn view(&self) -> PlayerModel {
        PlayerModel { status: self.status@, queue: self.queue.deep_view() }
    }
}

impl Player {
    /// A stopped player with an empty queue.
    pub fn new() -> (player: Player)
        ensures
            player@.status is Stopped,
            player@.queue.len() == 0,
    {
        Player { status: PlayerStatus::Stopped, queue: VecDeque::new() }
    }

    /// Resumes the current song, or starts on the next queued one.
    pub fn play(&mut self, cache: &Cache) -> (result: Result<Directive, CommandError>)
        ensures
            final(self)@ == old(self)@.play(cache).state,
            result_model(result) == old(self)@.play(cache).result,
    {
        match &mut self.status {
            PlayerStatus::PlayingOrPaused { paused, .. } => {
                *paused = false;
                Ok(Directive::Publish)
            },
            PlayerStatus::Stopped => {
                let ghost before = self.queue.deep_view();
                match self.queue.pop_front() {
                    None => {
                        assert(self.queue.deep_view() =~= before);
                        Ok(Directive::Publish)
                    },
                    Some(path) => {
                        assert(self.queue.deep_view() =~= before.drop_first());
                        assert(path.deep_view() == before[0]);
                        match cache.song(&path) {
                            Ok(Some(song)) => Ok(Directive::Open(song.clone())),
                            Ok(None) => Err(CommandError::SongNotFound),
                            Err(e) => Err(CommandError::Lookup(e)),
                        }
                    },
                }
            },
        }
    }

    /// Pauses the current song.
    pub fn pause(&mut self) -> (result: Result<Directive, CommandError>)
        ensures
            final(self)@ == old(self)@.pause().state,
            result_model(result) == old(self)@.pause().result,
    {
        match &mut self.status {
            PlayerStatus::PlayingOrPaused { paused, .. } => {
                *paused = true;
            },
            PlayerStatus::Stopped => {},
        }
        Ok(Directive::Publish)
    }

    /// Pauses the current song if it plays, resumes it if it is paused.
    pub fn play_pause(&mut self) -> (result: Result<Directive, CommandError>)
        ensures
            final(self)@ == old(self)@.play_pause().state,
            result_model(result) == old(self)@.play_pause().result,
    {
        match &mut self.status {
            PlayerStatus::PlayingOrPaused { paused, .. } => {
                *paused = !*paused;
            },
            PlayerStatus::Stopped => {},
        }
        Ok(Directive::Publish)
    }

    /// Stops: no song is current any more.
    pub fn stop(&mut self) -> (result: Result<Directive, CommandError>)
        ensures
            final(self)@ == old(self)@.stop().state,
            result_model(result) == old(self)@.stop().result,
    {
        self.status = PlayerStatus::Stopped;
        Ok(Directive::Publish)
    }

    /// Stops the current song and starts on the next queued one.
    pub fn skip(&mut self, cache: &Cache) -> (result: Result<Directive, CommandError>)
        ensures
            final(self)@ == old(self)@.skip(cache).state,
            result_model(result) == old(self)@.skip(cache).result,
    {
        self.status = PlayerStatus::Stopped;
        self.play(cache)
    }

    /// Empties the queue and stops.
    pub fn clear(&mut self) -> (result: Result<Directive, CommandError>)
        ensures
            final(self)@ == old(self)@.clear().state,
            result_model(result) == old(self)@.clear().result,
    {
        self.queue.clear();
        self.status = PlayerStatus::Stopped;
        assert(self.queue.deep_view() =~= Seq::<Seq<Seq<char>>>::empty());
        Ok(Directive::Publish)
    }

    /// Adds `path` to the end of the queue; a stopped player goes on to play.
    pub fn enqueue(&mut self, cache: &Cache, path: Vec<String>) -> (result: Result<
        Directive,
        CommandError,
    >)
        ensures
            final(self)@ == old(self)@.enqueue(cache, path.deep_view()).state,
            result_model(result) == old(self)@.enqueue(cache, path.deep_view()).result,
    {
        let ghost before = self.queue.deep_view();
        self.queue.push_back(path);
        assert(self.queue.deep_view() =~= before.push(path.deep_view()));
        let stopped = match &self.status {
            PlayerStatus::Stopped => true,
            PlayerStatus::PlayingOrPaused { .. } => false,
        };
        if stopped {
            self.play(cache)
        } else {
            Ok(Directive::Publish)
        }
    }

    /// Removes the queue entry at `index`.
    pub fn dequeue(&mut self, index: usize) -> (result: Result<Directive, CommandError>)
        ensures
            final(self)@ == old(self)@.dequeue(index).state,
            result_model(result) == old(self)@.dequeue(index).result,
    {
        let ghost before = self.queue.deep_view();
        let len: usize = self.queue.len();
        match self.queue.remove(index) {
            Some(_) => {
                assert(self.queue.deep_view() =~= before.remove(index as int));
                Ok(Directive::Publish)
            },
            None => {
                assert(self.queue.deep_view() =~= before);
                Err(CommandError::IndexOutOfRange { index, len })
            },
        }
    }

    /// Applies one command.
    pub fn handle(&mut self, cache: &Cache, command: Command) -> (result: Result<
        Directive,
        CommandError,
    >)
        ensures
            final(self)@ == old(self)@.handle(cache, command@).state,
            result_model(result) == old(self)@.handle(cache, command@).result,
    {
        match command {
            Command::Play => self.play(cache),
            Command::Pause => self.pause(),
            Command::PlayPause => self.play_pause(),
            Command::Skip => self.skip(cache),
            Command::Stop => self.stop(),
            Command::Clear => self.clear(),
            Command::Enqueue(path) => self.enqueue(cache, path),
            Command::Dequeue(index) => self.dequeue(index),
        }
    }

    /// Records that the stream asked for with `Open(song)` is open.
    pub fn opened(&mut self, song: Song, metadata: Option<Metadata>)
        ensures
            final(self)@ == old(self)@.opened(song@, metadata.deep_view()),
    {
        self.status = PlayerStatus::PlayingOrPaused {
            song,
            metadata,
            playing_duration: PlayTime::zero(),
            paused: false,
        };
    }

    /// Records that the stream asked for with `Open` did not come to be.
    pub fn open_failed(&mut self, cache: &Cache, error: OpenError) -> (result: Result<
        Directive,
        CommandError,
    >)
        ensures
            final(self)@ == old(self)@.open_failed(cache, error).state,
            result_model(result) == old(self)@.open_failed(cache, error).result,
    {
        let stopped = match &self.status {
            PlayerStatus::Stopped => true,
            PlayerStatus::PlayingOrPaused { .. } => false,
        };
        match error {
            OpenError::Load(_) => {
                if stopped {
                    self.play(cache)
                } else {
                    Ok(Directive::Publish)
                }
            },
            OpenError::Device => Ok(Directive::Publish),
        }
    }

    /// Takes in one event: applies a command, or records the outcome of an
    /// attempt to open a stream.
    pub fn apply(&mut self, cache: &Cache, event: Event) -> (result: Result<Directive, CommandError>)
        ensures
            final(self)@ == old(self)@.apply(cache, event@),
            result_model(result) == old(self)@.answer(cache, event@),
    {
        match event {
            Event::Command(command) => self.handle(cache, command),
            Event::Opened(song, metadata) => {
                self.opened(song, metadata);
                Ok(Directive::Publish)
            },
            Event::OpenFailed(error) => self.open_failed(cache, error),
        }
    }

    /// Records how far the output stream has played the current song.
    pub fn progress(&mut self, played: PlayTime)
        ensures
            final(self)@.status == old(self)@.status.with_played(played),
            final(self)@.queue == old(self)@.queue,
    {
        match &mut self.status {
            PlayerStatus::PlayingOrPaused { playing_duration, .. } => {
                *playing_duration = played;
            },
            PlayerStatus::Stopped => {},
        }
    }
    /// The current song, if one is current.
    pub fn current(&self) -> (song: Option<&Song>)
        ensures
            match song {
                Some(s) => self@.status matches StatusModel::PlayingOrPaused { song: current, .. }
                    && current == s@,
                None => self@.status is Stopped,
            },
    {
        match &self.status {
            PlayerStatus::PlayingOrPaused { song, .. } => Some(song),
            PlayerStatus::Stopped => None,
        }
    }

    /// How far the current song has played, if one is current.
    pub fn current_time(&self) -> (time: Option<PlayTime>)
        ensures
            match time {
                Some(t) => self@.status matches StatusModel::PlayingOrPaused {
                    playing_duration,
                    ..
                } && playing_duration == t,
                None => self@.status is Stopped,
            },
    {
        match &self.status {
            PlayerStatus::PlayingOrPaused { playing_duration, .. } => Some(*playing_duration),
            PlayerStatus::Stopped => None,
        }
    }

    /// The front cover of the current song, if one is current and has one.
    pub fn current_cover(&self) -> (cover: Option<&Vec<u8>>)
        ensures
            match cover {
                Some(data) => cover_of(self@.status) == Some(data@),
                None => cover_of(self@.status) is None,
            },
    {
        match &self.status {
            PlayerStatus::PlayingOrPaused { metadata: Some(metadata), .. } => metadata.front_cover(),
            _ => None,
        }
    }

    /// The paths that wait, in the order they will be played.
    pub fn nexts(&self) -> (paths: Vec<Vec<String>>)
        ensures
            paths.deep_view() == self@.queue,
    {
        let mut paths: Vec<Vec<String>> = Vec::new();
        let mut i: usize = 0;
        while i < self.queue.len()
            invariant
                i <= self.queue.len(),
                paths.len() == i,
                forall|j: int| 0 <= j < i ==> paths@[j].deep_view() == self.queue@[j].deep_view(),
            decreases self.queue.len() - i,
        {
            paths.push(clone_strings(&self.queue[i]));
            i += 1;
        }
        assert(paths.deep_view() =~= self.queue.deep_view());
        paths
    }
}

/// The front cover that a status holds: that of the current song's
/// metadata, if a song is current and its metadata has one.
pub open spec fn cover_of(status: StatusModel) -> Option<Seq<u8>> {
    match status {
        StatusModel::PlayingOrPaused { metadata: Some(visuals), .. } => front_cover_of(visuals),
        _ => None,
    }
}

} // verus!
