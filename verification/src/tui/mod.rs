//! What the terminal interface decides: how things are worded, and how keys
//! move its selections. Drawing is not done here.

pub mod fancy;
pub mod files;
pub mod listing;
pub mod log;
pub mod order;
pub mod search;
pub mod song_table;
pub mod status;
pub mod tabs;

use vstd::prelude::*;
use crate::text::{push_char, push_two_digits, two_digits};
use crate::time::PlayTime;

verus! {

/// What is shown where a song lacks a tag.
pub const UNKNOWN_STRING: &'static str = "<unknown>";

/// A key press as the interface sees it.
#[derive(Clone, Copy, Debug, PartialEq, Eq, Structural)]
pub enum Key {
    Char(char),
    Up,
    Down,
    PageUp,
    PageDown,
    Home,
    End,
    Enter,
    Backspace,
    Esc,
    Tab,
    BackTab,
    Other,
}

/// The selection moved by `delta` places in a list of `len` items: not
/// before the first item and not beyond the last.
pub open spec fn moved_selection(selected: int, len: int, delta: int) -> int {
    if delta < 0 && -delta > selected {
        0
    } else if delta > 0 && delta + selected >= len {
        if len == 0 {
            0
        } else {
            len - 1
        }
    } else {
        selected + delta
    }
}

/// Moves the selection of a list of `len` items by `delta` places, stopping
/// at either end. Where nothing is selected, nothing is.
pub fn list_select_bounded(selected: Option<usize>, len: usize, delta: isize) -> (moved: Option<
    usize,
>)
    ensures
        match (selected, moved) {
            (Some(i), Some(m)) => m == moved_selection(i as int, len as int, delta as int),
            (None, None) => true,
            _ => false,
        },
{
    match selected {
        None => None,
        Some(i) => {
            if delta < 0 {
                let back: usize = if delta == isize::MIN {
                    (isize::MAX as usize) + 1
                } else {
                    (-delta) as usize
                };
                if back > i {
                    Some(0)
                } else {
                    Some(i - back)
                }
            } else if delta > 0 {
                let forth: usize = delta as usize;
                if forth >= len || i >= len - forth {
                    if len == 0 {
                        Some(0)
                    } else {
                        Some(len - 1)
                    }
                } else {
                    Some(i + forth)
                }
            } else {
                Some(i)
            }
        },
    }
}

/// The text of a span of `secs` seconds as a clock reading: `MM:SS`, or
/// `HH:MM:SS` once it reaches an hour.
pub open spec fn clock_text(secs: nat) -> Seq<char> {
    let hours = secs / 3600;
    let minutes = (secs % 3600) / 60;
    let seconds = secs % 60;
    if hours > 0 {
        two_digits(hours) + seq![':'] + two_digits(minutes) + seq![':'] + two_digits(seconds)
    } else {
        two_digits(minutes) + seq![':'] + two_digits(seconds)
    }
}

/// Renders a span as a clock reading, dropping the fraction of a second.
pub fn format_duration(duration: PlayTime) -> (text: String)
    ensures
        text@ == clock_text(duration.spec_secs()),
{
    let secs: u64 = duration.as_secs();
    let hours: u64 = secs / 3600;
    let minutes: u64 = (secs % 3600) / 60;
    let seconds: u64 = secs % 60;
    let mut text = String::new();
    if hours > 0 {
        push_two_digits(&mut text, hours);
        push_char(&mut text, ':');
    }
    push_two_digits(&mut text, minutes);
    push_char(&mut text, ':');
    push_two_digits(&mut text, seconds);
    text
}

} // verus!
