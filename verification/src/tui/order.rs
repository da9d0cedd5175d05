//! The order of the entries of a directory, and the sort by it.

use itertools::Itertools;
use std::cmp::Ordering;
use vstd::prelude::*;
use crate::cache::CacheEntry;
use crate::keys::StandardTagKey;
use crate::text::{parse_u32, text_before};
use crate::tui::listing::{entry_before, models, track_of, Item};

verus! {

/// Compares two texts in the order of dictionaries.
///
/// Trusted: `cmp` on `str` orders texts character by character by the
/// characters' numbers in the code charts, a text before those that
/// continue it.
#[verifier::external_body]
fn text_cmp(a: &str, b: &str) -> (order: Ordering)
    ensures
        (order is Less) == text_before(a@, b@),
        (order is Greater) == text_before(b@, a@),
{
    a.cmp(b)
}

/// The track number of a file: what its track number tag says, if it has
/// the tag and the tag's text is a number. A directory has none.
pub fn track_number(entry: &CacheEntry) -> (track: Option<u32>)
    ensures
        track == match *entry {
            CacheEntry::File { song } => track_of(song@),
            CacheEntry::Directory { .. } => None,
        },
{
    match entry {
        CacheEntry::File { song } => match song.standard_tags.get(StandardTagKey::TrackNumber) {
            Some(value) => {
                let text = value.text();
                parse_u32(text.as_str())
            },
            None => None,
        },
        CacheEntry::Directory { .. } => None,
    }
}

/// Compares two entries: files come before directories; among files those
/// without a track number come first, by name, then those with one, by
/// number; directories come by name.
pub fn entry_order(a: &Item<'_>, b: &Item<'_>) -> (order: Ordering)
    ensures
        (order is Less) == entry_before(a.model(), b.model()),
        (order is Greater) == entry_before(b.model(), a.model()),
{
    match (a.entry, b.entry) {
        (CacheEntry::File { .. }, CacheEntry::File { .. }) => {
            match (track_number(a.entry), track_number(b.entry)) {
                (None, None) => text_cmp(a.name.as_str(), b.name.as_str()),
                (None, Some(_)) => Ordering::Less,
                (Some(_), None) => Ordering::Greater,
                (Some(x), Some(y)) => if x < y {
                    Ordering::Less
                } else if x == y {
                    Ordering::Equal
                } else {
                    Ordering::Greater
                },
            }
        },
        (CacheEntry::File { .. }, CacheEntry::Directory { .. }) => Ordering::Less,
        (CacheEntry::Directory { .. }, CacheEntry::File { .. }) => Ordering::Greater,
        (CacheEntry::Directory { .. }, CacheEntry::Directory { .. }) => text_cmp(
            a.name.as_str(),
            b.name.as_str(),
        ),
    }
}

/// Sorts entries by `entry_order`.
///
/// Trusted: itertools' `sorted_by` collects the items and sorts them with
/// the standard library's stable `sort_by`: what comes out is the same items
/// in an order in which none comes after one that the comparison puts after
/// it. The comparison handed over is `entry_order`, which orders all
/// entries by rank.
#[verifier::external_body]
pub(crate) fn sort_items<'a>(items: Vec<Item<'a>>) -> (sorted: Vec<Item<'a>>)
    ensures
        models(sorted@).to_multiset() == models(items@).to_multiset(),
        forall|i: int, j: int|
            0 <= i < j < sorted@.len() ==> !entry_before(sorted@[j].model(), sorted@[i].model()),
{
    items.into_iter().sorted_by(|a, b| entry_order(a, b)).collect()
}

} // verus!
