//! The search tab: the keyword being typed, the ranked songs, and the
//! selection among them. How well a song answers the keyword is scored
//! elsewhere: `Rank` asks for the scores, `best_first` orders the songs by
//! them, and `set_items` takes the outcome.

use itertools::Itertools;
use vstd::prelude::*;
use crate::command::{Command, CommandModel};
use crate::song::{Song, SongModel};
use crate::text::{pop_char, push_char};
use crate::tui::Key;
use crate::value::clone_strings;

verus! {

/// The model of a [`SearchAction`].
pub enum SearchActionModel {
    Nothing,
    Rank,
    Send(CommandModel),
    NothingSelected,
}

/// What the search tab asks for after a key.
#[derive(Debug)]
pub enum SearchAction {
    /// Nothing.
    Nothing,
    /// The keyword has changed and is not empty: rank the songs against it
    /// and hand them over with `set_items`.
    Rank,
    /// Send the command to the player.
    Send(Command),
    /// `Enter` was pressed where the selection is on no song.
    NothingSelected,
}

impl View for SearchAction {
    type V = SearchActionModel;

    open spec fn view(&self) -> SearchActionModel {
        match self {
            SearchAction::Nothing => SearchActionModel::Nothing,
            SearchAction::Rank => SearchActionModel::Rank,
            SearchAction::Send(command) => SearchActionModel::Send(command@),
            SearchAction::NothingSelected => SearchActionModel::NothingSelected,
        }
    }
}

/// The model of a [`Search`].
pub struct SearchModel {
    pub keyword: Seq<char>,
    pub selected: usize,
    pub items: Seq<(SongModel, Seq<Seq<char>>)>,
}

/// A search state together with what the step to it asks for.
pub struct SearchStep {
    pub state: SearchModel,
    pub action: SearchActionModel,
}

impl SearchModel {
    /// The state with the selection brought back to at most the number of
    /// items.
    pub open spec fn settle(self) -> SearchModel {
        if self.selected > self.items.len() {
            SearchModel { selected: self.items.len() as usize, ..self }
        } else {
            self
        }
    }

    /// What a key does. A character joins the keyword and `Backspace` takes
    /// its last one away; where the keyword is then not empty the songs are
    /// to be ranked anew, and an empty keyword shows no songs. `Esc` empties
    /// both. `Up` and `Down` move the selection, and `Enter` enqueues the
    /// selected song.
    pub open spec fn input(self, key: Key) -> SearchStep {
        match key {
            Key::Char(c) => SearchStep {
                state: SearchModel { keyword: self.keyword.push(c), ..self },
                action: SearchActionModel::Rank,
            },
            Key::Backspace => if self.keyword.len() > 1 {
                SearchStep {
                    state: SearchModel { keyword: self.keyword.drop_last(), ..self },
                    action: SearchActionModel::Rank,
                }
            } else {
                SearchStep {
                    state: SearchModel {
                        keyword: Seq::empty(),
                        items: Seq::empty(),
                        selected: 0,
                    },
                    action: SearchActionModel::Nothing,
                }
            },
            Key::Esc => SearchStep {
                state: SearchModel { keyword: Seq::empty(), items: Seq::empty(), selected: 0 },
                action: SearchActionModel::Nothing,
            },
            Key::Down => SearchStep {
                state: SearchModel {
                    selected: if self.selected < self.items.len() {
                        (self.selected + 1) as usize
                    } else {
                        self.items.len() as usize
                    },
                    ..self
                },
                action: SearchActionModel::Nothing,
            },
            Key::Up => SearchStep {
                state: SearchModel {
                    selected: if self.selected == 0 {
                        0
                    } else {
                        (self.selected - 1) as usize
                    },
                    ..self
                }.settle(),
                action: SearchActionModel::Nothing,
            },
            Key::Enter => if self.selected < self.items.len() {
                SearchStep {
                    state: self,
                    action: SearchActionModel::Send(
                        CommandModel::Enqueue(self.items[self.selected as int].1),
                    ),
                }
            } else {
                SearchStep { state: self, action: SearchActionModel::NothingSelected }
            },
            _ => SearchStep { state: self.settle(), action: SearchActionModel::Nothing },
        }
    }
}

/// Sorts pairs by their first component.
///
/// Trusted: itertools' `sorted_unstable_by_key` collects the items and sorts
/// them with the standard library's `sort_unstable_by_key`: what comes out
/// is the same items, in an order in which the keys do not fall. Items with
/// equal keys come in no particular order.
#[verifier::external_body]
fn sort_by_key(pairs: Vec<(u64, usize)>) -> (sorted: Vec<(u64, usize)>)
    ensures
        sorted@.to_multiset() == pairs@.to_multiset(),
        forall|i: int, j: int| 0 <= i < j < sorted@.len() ==> sorted@[i].0 <= sorted@[j].0,
{
    pairs.into_iter().sorted_unstable_by_key(|pair| pair.0).collect()
}

/// Whether `picks` ranks the places of `keys`: it names each place whose key
/// is at most `limit` once, and no other place, in an order in which the
/// keys do not fall.
pub open spec fn is_ranking(picks: Seq<int>, keys: Seq<u64>, limit: u64) -> bool {
    &&& forall|k: int|
        0 <= k < picks.len() ==> 0 <= #[trigger] picks[k] < keys.len() && keys[picks[k]] <= limit
    &&& forall|k: int, l: int|
        0 <= k < l < picks.len() ==> picks[k] != picks[l] && keys[picks[k]] <= keys[picks[l]]
    &&& forall|i: int|
        0 <= i < keys.len() && #[trigger] keys[i] <= limit ==> exists|k: int|
            0 <= k < picks.len() && picks[k] == i
}

/// The keys of scored songs.
pub open spec fn keys_of(scored: Seq<(u64, Song, Vec<String>)>) -> Seq<u64> {
    Seq::new(scored.len(), |i: int| scored[i].0)
}

/// Whether `found` is the songs of `scored` at the places `picks`, in that
/// order.
pub open spec fn picked(
    found: Seq<(Song, Vec<String>)>,
    scored: Seq<(u64, Song, Vec<String>)>,
    picks: Seq<int>,
) -> bool {
    &&& found.len() == picks.len()
    &&& forall|k: int|
        0 <= k < found.len() ==> 0 <= picks[k] < scored.len() && (#[trigger] found[k]).0@
            == scored[picks[k]].1@ && found[k].1.deep_view() == scored[picks[k]].2.deep_view()
}

/// Ranks scored songs: those with a key of at most `limit`, the lowest key
/// first. A key stands for how far a song is from the keyword.
pub fn best_first(scored: &Vec<(u64, Song, Vec<String>)>, limit: u64) -> (found: Vec<
    (Song, Vec<String>),
>)
    ensures
        exists|picks: Seq<int>|
            is_ranking(picks, keys_of(scored@), limit) && #[trigger] picked(found@, scored@, picks),
{
    let ghost keys = keys_of(scored@);
    let mut pairs: Vec<(u64, usize)> = Vec::new();
    let mut i: usize = 0;
    while i < scored.len()
        invariant
            i <= scored.len(),
            pairs@.len() == i,
            forall|j: int| 0 <= j < i ==> pairs@[j] == (scored@[j].0, j as usize),
        decreases scored.len() - i,
    {
        pairs.push((scored[i].0, i));
        i += 1;
    }
    let ghost unsorted = pairs@;
    let sorted = sort_by_key(pairs);
    proof {
        broadcast use vstd::seq_lib::group_to_multiset_ensures;

        assert(unsorted.no_duplicates());
        unsorted.lemma_multiset_has_no_duplicates();
        sorted@.lemma_multiset_has_no_duplicates_conv();
        assert(sorted@.len() == unsorted.len()) by {
            assert(sorted@.to_multiset().len() == unsorted.to_multiset().len());
        }
        assert forall|k: int| 0 <= k < sorted@.len() implies 0 <= (#[trigger] sorted@[k]).1
            < scored@.len() && sorted@[k].0 == scored@[sorted@[k].1 as int].0 by {
            assert(sorted@.contains(sorted@[k]));
            assert(unsorted.to_multiset().count(sorted@[k]) > 0);
            assert(unsorted.contains(sorted@[k]));
            let j = choose|j: int| 0 <= j < unsorted.len() && unsorted[j] == sorted@[k];
            assert(unsorted[j] == (scored@[j].0, j as usize));
        }
    }
    let mut found: Vec<(Song, Vec<String>)> = Vec::new();
    let mut k: usize = 0;
    while k < sorted.len() && sorted[k].0 <= limit
        invariant
            k <= sorted@.len(),
            found@.len() == k,
            forall|l: int|
                0 <= l < sorted@.len() ==> 0 <= (#[trigger] sorted@[l]).1 < scored@.len()
                    && sorted@[l].0 == scored@[sorted@[l].1 as int].0,
            forall|l: int| 0 <= l < k ==> (#[trigger] sorted@[l]).0 <= limit,
            forall|l: int|
                0 <= l < k ==> (#[trigger] found@[l]).0@ == scored@[sorted@[l].1 as int].1@
                    && found@[l].1.deep_view() == scored@[sorted@[l].1 as int].2.deep_view(),
        decreases sorted@.len() - k,
    {
        let at: usize = sorted[k].1;
        found.push((scored[at].1.clone(), clone_strings(&scored[at].2)));
        k += 1;
    }
    proof {
        broadcast use vstd::seq_lib::group_to_multiset_ensures;

        let picks = Seq::new(k as nat, |l: int| sorted@[l].1 as int);
        assert forall|a: int, b: int| 0 <= a < b < picks.len() implies picks[a] != picks[b]
            && keys[picks[a]] <= keys[picks[b]] by {
            if picks[a] == picks[b] {
                assert(sorted@[a] == sorted@[b]);
            }
        }
        assert forall|i: int| 0 <= i < keys.len() && #[trigger] keys[i] <= limit implies exists|
            l: int,
        | 0 <= l < picks.len() && picks[l] == i by {
            assert(unsorted[i] == (scored@[i].0, i as usize));
            assert(unsorted.contains(unsorted[i]));
            assert(sorted@.to_multiset().count(unsorted[i]) > 0);
            assert(sorted@.contains(unsorted[i]));
            let l = choose|l: int| 0 <= l < sorted@.len() && sorted@[l] == unsorted[i];
            if l >= k {
                assert(sorted@[k as int].0 <= sorted@[l].0);
            }
            assert(picks[l] == i);
        }
        assert(is_ranking(picks, keys, limit));
        assert(picked(found@, scored@, picks));
    }
    found
}

/// The search tab.
#[derive(Debug)]
pub struct Search {
    pub keyword: String,
    pub selected: usize,
    /// The songs found, best first, each with the components of its path.
    pub items: Vec<(Song, Vec<String>)>,
}

impl View for Search {
    type V = SearchModel;

    open spec fn view(&self) -> SearchModel {
        SearchModel {
            keyword: self.keyword@,
            selected: self.selected,
            items: Seq::new(
                self.items@.len(),
                |i: int| (self.items@[i].0@, self.items@[i].1.deep_view()),
            ),
        }
    }
}

impl Search {
    /// The search tab with no keyword and no songs.
    pub fn new() -> (search: Search)
        ensures
            search@.keyword == Seq::<char>::empty(),
            search@.selected == 0,
            search@.items.len() == 0,
    {
        Search { keyword: String::new(), selected: 0, items: Vec::new() }
    }

    fn settle(&mut self)
        ensures
            final(self)@ == old(self)@.settle(),
    {
        if self.selected > self.items.len() {
            self.selected = self.items.len();
        }
    }

    /// Takes the songs that ranking gave, best first, and brings the
    /// selection back to at most their number.
    pub fn set_items(&mut self, items: Vec<(Song, Vec<String>)>)
        ensures
            final(self)@.keyword == old(self)@.keyword,
            final(self)@.items == Seq::new(
                items@.len(),
                |i: int| (items@[i].0@, items@[i].1.deep_view()),
            ),
            final(self)@.selected == if old(self)@.selected > items@.len() {
                items@.len() as usize
            } else {
                old(self)@.selected
            },
    {
        self.items = items;
        self.settle();
    }

    /// Takes a key.
    pub fn input(&mut self, key: Key) -> (action: SearchAction)
        ensures
            final(self)@ == old(self)@.input(key).state,
            action@ == old(self)@.input(key).action,
    {
        let ghost before = self@;
        match key {
            Key::Char(c) => {
                push_char(&mut self.keyword, c);
                SearchAction::Rank
            },
            Key::Backspace => {
                if self.keyword.as_str().unicode_len() > 1 {
                    pop_char(&mut self.keyword);
                    SearchAction::Rank
                } else {
                    self.keyword = String::new();
                    self.items = Vec::new();
                    self.selected = 0;
                    assert(self@.items =~= Seq::empty());
                    SearchAction::Nothing
                }
            },
            Key::Esc => {
                self.keyword = String::new();
                self.items = Vec::new();
                self.selected = 0;
                assert(self@.items =~= Seq::empty());
                SearchAction::Nothing
            },
            Key::Down => {
                if self.selected < self.items.len() {
                    self.selected = self.selected + 1;
                } else {
                    self.selected = self.items.len();
                }
                SearchAction::Nothing
            },
            Key::Up => {
                if self.selected > 0 {
                    self.selected = self.selected - 1;
                }
                self.settle();
                SearchAction::Nothing
            },
            Key::Enter => {
                if self.selected < self.items.len() {
                    let path = clone_strings(&self.items[self.selected].1);
                    SearchAction::Send(Command::Enqueue(path))
                } else {
                    SearchAction::NothingSelected
                }
            },
            _ => {
                self.settle();
                SearchAction::Nothing
            },
        }
    }
}

} // verus!
