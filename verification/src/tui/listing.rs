//! The list that the file browser shows: the entries of the directory it
//! stands in, those that pass the filter, in order.

use vstd::prelude::*;
use crate::cache::{Cache, CacheEntry, CacheError};
use crate::keys::StandardTagKey;
use crate::song::{Song, SongModel};
use crate::text::{contains_text, has_text, lowercase, lowercased, parsed_u32, text_before};
use crate::tui::files::{FilterModel, FilterState, Picked, PickedModel};
use crate::tui::order::sort_items;

verus! {

/// One row of the list: an entry of a directory and its name.
#[derive(Clone, Copy, Debug)]
pub struct Item<'a> {
    pub name: &'a String,
    pub entry: &'a CacheEntry,
}

impl<'a> Item<'a> {
    /// The name and the entry.
    pub open spec fn model(&self) -> (Seq<char>, CacheEntry) {
        (self.name@, *self.entry)
    }
}

/// The track number of a song: what its track number tag says, if it has
/// the tag and the tag's text is a number.
pub open spec fn track_of(song: SongModel) -> Option<u32> {
    if song.standard_tags.contains_key(StandardTagKey::TrackNumber) {
        parsed_u32(song.standard_tags[StandardTagKey::TrackNumber].text())
    } else {
        None
    }
}

/// The rank of an entry in the list: files without a track number, then
/// files with one, then directories.
pub open spec fn rank(entry: CacheEntry) -> int {
    match entry {
        CacheEntry::File { song } => if track_of(song@) is Some {
            1
        } else {
            0
        },
        CacheEntry::Directory { .. } => 2,
    }
}

/// The track number by which a file with one is ordered.
pub open spec fn track_key(entry: CacheEntry) -> int {
    match entry {
        CacheEntry::File { song } => match track_of(song@) {
            Some(track) => track as int,
            None => 0,
        },
        CacheEntry::Directory { .. } => 0,
    }
}

/// Whether entry `a` comes strictly before entry `b`: by rank; among files
/// with a track number by that number; among the others by name.
pub open spec fn entry_before(a: (Seq<char>, CacheEntry), b: (Seq<char>, CacheEntry)) -> bool {
    rank(a.1) < rank(b.1) || (rank(a.1) == rank(b.1) && if rank(a.1) == 1 {
        track_key(a.1) < track_key(b.1)
    } else {
        text_before(a.0, b.0)
    })
}

/// No text comes before itself, and of two texts at most one comes before
/// the other.
pub proof fn lemma_text_before_asymmetric(a: Seq<char>, b: Seq<char>)
    ensures
        !(text_before(a, b) && text_before(b, a)),
    decreases a.len(),
{
    if a.len() > 0 && b.len() > 0 && a[0] == b[0] {
        lemma_text_before_asymmetric(a.drop_first(), b.drop_first());
    }
}

/// Of two different texts one comes before the other.
pub proof fn lemma_text_before_total(a: Seq<char>, b: Seq<char>)
    ensures
        a == b || text_before(a, b) || text_before(b, a),
    decreases a.len(),
{
    if a.len() > 0 && b.len() > 0 {
        if a[0] == b[0] {
            lemma_text_before_total(a.drop_first(), b.drop_first());
            if a.drop_first() == b.drop_first() {
                assert(a =~= seq![a[0]] + a.drop_first());
                assert(b =~= seq![b[0]] + b.drop_first());
            }
        } else {
            assert(crate::text::char_code(a[0]) != crate::text::char_code(b[0])) by {
                lemma_char_code_injective(a[0], b[0]);
            }
        }
    } else if a.len() == 0 && b.len() == 0 {
        assert(a =~= b);
    }
}

/// Different characters have different numbers.
pub proof fn lemma_char_code_injective(a: char, b: char)
    ensures
        crate::text::char_code(a) == crate::text::char_code(b) ==> a == b,
{
    if crate::text::char_code(a) == crate::text::char_code(b) {
        assert(crate::text::char_code(a) as char == a);
        assert(crate::text::char_code(b) as char == b);
    }
}

/// The order of texts is transitive.
pub proof fn lemma_text_before_transitive(a: Seq<char>, b: Seq<char>, c: Seq<char>)
    requires
        text_before(a, b),
        text_before(b, c),
    ensures
        text_before(a, c),
    decreases a.len(),
{
    if a.len() > 0 && b.len() > 0 && c.len() > 0 && a[0] == b[0] && b[0] == c[0] {
        lemma_text_before_transitive(a.drop_first(), b.drop_first(), c.drop_first());
    }
}

/// The order of entries is a strict order by rank: no entry comes before
/// itself, of two entries at most one comes before the other, the order is
/// transitive, and so is being neither before nor after.
pub proof fn lemma_entry_order(
    a: (Seq<char>, CacheEntry),
    b: (Seq<char>, CacheEntry),
    c: (Seq<char>, CacheEntry),
)
    ensures
        !(entry_before(a, b) && entry_before(b, a)),
        entry_before(a, b) && entry_before(b, c) ==> entry_before(a, c),
        !entry_before(a, b) && !entry_before(b, a) && !entry_before(b, c) && !entry_before(c, b)
            ==> !entry_before(a, c) && !entry_before(c, a),
{
    lemma_text_before_asymmetric(a.0, b.0);
    if text_before(a.0, b.0) && text_before(b.0, c.0) {
        lemma_text_before_transitive(a.0, b.0, c.0);
    }
    lemma_text_before_total(a.0, b.0);
    lemma_text_before_total(b.0, c.0);
    lemma_text_before_asymmetric(a.0, c.0);
}

/// Whether an entry passes a filter whose text, in lower case, is `needle`:
/// the text occurs in the entry's name in lower case or, for a file, in the
/// text of one of its tags in lower case.
pub open spec fn passes(name: Seq<char>, entry: CacheEntry, needle: Seq<char>) -> bool {
    ||| has_text(lowercased(name), needle)
    ||| (entry matches CacheEntry::File { song } && exists|key: StandardTagKey|
        song@.standard_tags.contains_key(key) && has_text(
            lowercased(#[trigger] song@.standard_tags[key].text()),
            needle,
        ))
}

/// The text that entries are held against: the filter's text in lower
/// case; none without a filter.
pub open spec fn needle_of(filter: FilterModel) -> Option<Seq<char>> {
    match filter {
        FilterModel::Disabled => None,
        FilterModel::Active { input, .. } => Some(lowercased(input)),
    }
}

/// The entries among `children` that pass, in their order: all without a
/// needle.
pub open spec fn kept(children: Seq<(String, CacheEntry)>, needle: Option<Seq<char>>) -> Seq<
    (Seq<char>, CacheEntry),
>
    decreases children.len(),
{
    if children.len() == 0 {
        Seq::empty()
    } else {
        let before = kept(children.drop_last(), needle);
        let last = children.last();
        if needle is None || passes(last.0@, last.1, needle->Some_0) {
            before.push((last.0@, last.1))
        } else {
            before
        }
    }
}

/// The names and entries of a list of rows.
pub open spec fn models(items: Seq<Item<'_>>) -> Seq<(Seq<char>, CacheEntry)> {
    Seq::new(items.len(), |i: int| items[i].model())
}

fn song_passes(song: &Song, needle: &str) -> (found: bool)
    ensures
        found == exists|key: StandardTagKey|
            song@.standard_tags.contains_key(key) && has_text(
                lowercased(#[trigger] song@.standard_tags[key].text()),
                needle@,
            ),
{
    let tags = &song.standard_tags;
    proof {
        use_type_invariant(tags);
        tags.lemma_listing();
    }
    let mut i: usize = 0;
    while i < tags.len()
        invariant
            i <= tags.listing().len(),
            tags@ == song@.standard_tags,
            forall|k: int|
                0 <= k < tags.listing().len() ==> tags@.contains_key(
                    (#[trigger] tags.listing()[k]).0,
                ) && tags@[tags.listing()[k].0] == tags.listing()[k].1,
            forall|key: StandardTagKey|
                tags@.contains_key(key) ==> exists|k: int|
                    0 <= k < tags.listing().len() && (#[trigger] tags.listing()[k]).0 == key,
            forall|k: int|
                0 <= k < i ==> !has_text(
                    lowercased((#[trigger] tags.listing()[k]).1.text()),
                    needle@,
                ),
        decreases tags.listing().len() - i,
    {
        let (key, value) = tags.entry(i);
        let text = value.text();
        let lower = lowercase(text.as_str());
        if contains_text(lower.as_str(), needle) {
            assert(tags@.contains_key(tags.listing()[i as int].0));
            assert(has_text(lowercased(song@.standard_tags[key].text()), needle@));
            return true;
        }
        i += 1;
    }
    assert forall|key: StandardTagKey| song@.standard_tags.contains_key(key) implies !has_text(
        lowercased(#[trigger] song@.standard_tags[key].text()),
        needle@,
    ) by {
        let k = choose|k: int| 0 <= k < tags.listing().len() && (#[trigger] tags.listing()[k]).0 == key;
        assert(tags@[tags.listing()[k].0] == tags.listing()[k].1);
    }
    false
}

fn entry_passes(name: &String, entry: &CacheEntry, needle: &str) -> (found: bool)
    ensures
        found == passes(name@, *entry, needle@),
{
    let lower = lowercase(name.as_str());
    if contains_text(lower.as_str(), needle) {
        return true;
    }
    match entry {
        CacheEntry::File { song } => song_passes(song, needle),
        CacheEntry::Directory { .. } => false,
    }
}

/// The list to show for the directory at `path`: its entries that pass the
/// filter, sorted. A path that names nothing, or a file, shows nothing; a
/// path that the cache refuses is an error.
pub fn items<'a>(cache: &'a Cache, path: &Vec<String>, filter: &FilterState) -> (list: Result<
    Vec<Item<'a>>,
    CacheError,
>)
    ensures
        match list {
            Ok(rows) => {
                &&& cache.entry_at(path.deep_view()) is Ok
                &&& models(rows@).to_multiset() == kept(
                    shown_children(cache.entry_at(path.deep_view())),
                    needle_of(filter@),
                ).to_multiset()
                &&& forall|i: int, j: int|
                    0 <= i < j < rows@.len() ==> !entry_before(rows@[j].model(), rows@[i].model())
            },
            Err(e) => cache.entry_at(path.deep_view()) == Err::<Option<CacheEntry>, CacheError>(e),
        },
{
    let found = match cache.get(path) {
        Ok(found) => found,
        Err(e) => {
            return Err(e);
        },
    };
    let children: &'a Vec<(String, CacheEntry)> = match found {
        Some(CacheEntry::Directory { children }) => children,
        _ => {
            let none: Vec<Item<'a>> = Vec::new();
            assert(models(none@) =~= Seq::empty());
            return Ok(none);
        },
    };
    let needle: Option<String> = match filter {
        FilterState::Disabled => None,
        FilterState::Active { input, .. } => Some(lowercase(input.as_str())),
    };
    let mut rows: Vec<Item<'a>> = Vec::new();
    let mut i: usize = 0;
    assert(children@.take(0) =~= Seq::empty());
    assert(models(rows@) =~= Seq::empty());
    while i < children.len()
        invariant
            i <= children.len(),
            needle.deep_view() == needle_of(filter@),
            models(rows@) == kept(children@.take(i as int), needle.deep_view()),
        decreases children.len() - i,
    {
        let ghost so_far = rows@;
        let name = &children[i].0;
        let entry = &children[i].1;
        proof {
            assert(children@.take(i + 1).drop_last() =~= children@.take(i as int));
            assert(children@.take(i + 1).last() == children@[i as int]);
        }
        let keep = match &needle {
            None => true,
            Some(text) => entry_passes(name, entry, text.as_str()),
        };
        if keep {
            rows.push(Item { name, entry });
            assert(models(rows@) =~= models(so_far).push((name@, *entry)));
        }
        i += 1;
    }
    assert(children@.take(children.len() as int) =~= children@);
    Ok(sort_items(rows))
}

/// The children that a lookup shows: those of the directory found, and none
/// where a file or nothing was found.
pub open spec fn shown_children(found: Result<Option<CacheEntry>, CacheError>) -> Seq<
    (String, CacheEntry),
> {
    match found {
        Ok(Some(CacheEntry::Directory { children })) => children@,
        _ => Seq::empty(),
    }
}

/// The entry under `row`, for `Enter`: its kind and a copy of its name.
pub fn picked_at(rows: &Vec<Item<'_>>, row: usize) -> (picked: Option<Picked>)
    ensures
        picked.deep_view() == if row < rows@.len() {
            Some(
                match *rows@[row as int].entry {
                    CacheEntry::File { .. } => PickedModel::File(rows@[row as int].name@),
                    CacheEntry::Directory { .. } => PickedModel::Directory(rows@[row as int].name@),
                },
            )
        } else {
            None
        },
{
    if row < rows.len() {
        let item = rows[row];
        match item.entry {
            CacheEntry::File { .. } => Some(Picked::File(item.name.clone())),
            CacheEntry::Directory { .. } => Some(Picked::Directory(item.name.clone())),
        }
    } else {
        None
    }
}

} // verus!
