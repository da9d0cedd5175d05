//! The rows of the song tables: what each of the four cells says.

use vstd::prelude::*;
use crate::cache::{Cache, CacheEntry};
use crate::keys::StandardTagKey;
use crate::song::{Song, SongModel};
use crate::tui::UNKNOWN_STRING;

verus! {

/// What a cell says of a song's tag: the text of the value under `key`, or
/// `fallback` where the song lacks the key.
pub open spec fn cell_text(song: SongModel, key: StandardTagKey, fallback: Seq<char>) -> Seq<char> {
    if song.standard_tags.contains_key(key) {
        song.standard_tags[key].text()
    } else {
        fallback
    }
}

/// The four cells of a song's row: track number, artist, title and album,
/// with `title` standing in for a missing title and the word for unknown for
/// each of the others.
pub open spec fn row_cells(song: SongModel, title: Seq<char>) -> Seq<Seq<char>> {
    seq![
        cell_text(song, StandardTagKey::TrackNumber, UNKNOWN_STRING@),
        cell_text(song, StandardTagKey::Artist, UNKNOWN_STRING@),
        cell_text(song, StandardTagKey::TrackTitle, title),
        cell_text(song, StandardTagKey::Album, UNKNOWN_STRING@),
    ]
}

/// The four cells of a directory's row: its name in the title's place.
pub open spec fn directory_cells(name: Seq<char>) -> Seq<Seq<char>> {
    seq![Seq::<char>::empty(), Seq::<char>::empty(), name, Seq::<char>::empty()]
}

fn cell(song: &Song, key: StandardTagKey, fallback: &str) -> (text: String)
    ensures
        text@ == cell_text(song@, key, fallback@),
{
    match song.standard_tags.get(key) {
        Some(value) => value.text(),
        None => fallback.to_owned(),
    }
}

fn cells_of(song: &Song, title: &str) -> (cells: Vec<String>)
    ensures
        cells.deep_view() == row_cells(song@, title@),
{
    let mut cells: Vec<String> = Vec::new();
    cells.push(cell(song, StandardTagKey::TrackNumber, UNKNOWN_STRING));
    cells.push(cell(song, StandardTagKey::Artist, UNKNOWN_STRING));
    cells.push(cell(song, StandardTagKey::TrackTitle, title));
    cells.push(cell(song, StandardTagKey::Album, UNKNOWN_STRING));
    assert(cells.deep_view() =~= row_cells(song@, title@));
    cells
}

/// The cells of the row for a cache entry named `key`: a file's tags, with
/// its name where it has no title; a directory's name.
pub fn cache_row(key: &str, value: &CacheEntry) -> (cells: Vec<String>)
    ensures
        cells.deep_view() == match *value {
            CacheEntry::File { song } => row_cells(song@, key@),
            CacheEntry::Directory { .. } => directory_cells(key@),
        },
{
    match value {
        CacheEntry::File { song } => cells_of(song, key),
        CacheEntry::Directory { .. } => {
            let mut cells: Vec<String> = Vec::new();
            cells.push(String::new());
            cells.push(String::new());
            cells.push(key.to_owned());
            cells.push(String::new());
            assert(cells.deep_view() =~= directory_cells(key@));
            cells
        },
    }
}

/// The cells of the row for a queued path: those of its song; where the
/// cache has no song there, the last component of the path in the title's
/// place.
pub fn queue_row(cache: &Cache, path: &Vec<String>) -> (cells: Vec<String>)
    ensures
        cells.deep_view() == match cache.song_at(path.deep_view()) {
            Some(song) => row_cells(song, UNKNOWN_STRING@),
            None => directory_cells(
                if path.len() > 0 {
                    path.deep_view().last()
                } else {
                    Seq::empty()
                },
            ),
        },
{
    match cache.song(path) {
        Ok(Some(song)) => song_row(song),
        _ => {
            let n: usize = path.len();
            let name = if n > 0 {
                path[n - 1].clone()
            } else {
                String::new()
            };
            let mut cells: Vec<String> = Vec::new();
            cells.push(String::new());
            cells.push(String::new());
            cells.push(name);
            cells.push(String::new());
            assert(cells.deep_view() =~= directory_cells(
                if path.len() > 0 {
                    path.deep_view().last()
                } else {
                    Seq::empty()
                },
            ));
            cells
        },
    }
}

/// The cells of the row for a song.
pub fn song_row(song: &Song) -> (cells: Vec<String>)
    ensures
        cells.deep_view() == row_cells(song@, UNKNOWN_STRING@),
{
    cells_of(song, UNKNOWN_STRING)
}

} // verus!
