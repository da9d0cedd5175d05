//! The core of a local-library audio player.
//!
//! - [`player`]: the player itself, a state machine over play, pause and
//!   stop with the queue of pending songs, changed by one command at a time
//!   ([`command`]).
//! - [`playback`]: the bookkeeping of the realtime output stream, between
//!   the loader and the device.
//! - [`loader`]: what the loader decides when it opens a song and when it
//!   reads a packet.
//! - [`facade`]: the snapshot of the player that readers get, and
//!   [`media`]: what the system's media controls are told of it and ask of
//!   the player.
//! - [`song`], [`tags`], [`value`], [`keys`]: a song and its metadata.
//! - [`cache`]: the tree of songs by path, and [`config`]: the settings it
//!   is built under.
//! - [`tui`]: what the terminal interface decides.
//! - [`time`] and [`text`]: fixed-point time and the building of text.
//!
//! The library decides and computes; it opens no file and no device. Each
//! data type has a mathematical model, its view, and each function a
//! contract over the models.

pub mod cache;
pub mod command;
pub mod config;
pub mod facade;
pub mod keys;
pub mod loader;
pub mod media;
pub mod playback;
pub mod player;
pub mod song;
pub mod tags;
pub mod text;
pub mod time;
pub mod tui;
pub mod value;
