//! The settings: where to look for songs, which files count as songs, and
//! where the cache and the log are kept.

use vstd::prelude::*;
use crate::song::Gain;
use crate::text::same_text;

verus! {

/// The settings.
#[derive(Debug)]
pub struct Config {
    /// The directories searched for songs, in the order they are searched.
    pub search_directories: Vec<String>,
    /// The file extensions that count as songs. The order is of no account.
    pub extensions: Vec<String>,
    pub cache_path: String,
    pub log_path: String,
    /// A gain applied to all songs.
    pub gain: Gain,
}

/// Whether `list` holds `name`.
pub open spec fn holds(list: Seq<Seq<char>>, name: Seq<char>) -> bool {
    exists|i: int| 0 <= i < list.len() && list[i] == name
}

/// Whether two lists hold the same names, in whatever order and however
/// often.
pub open spec fn same_names(a: Seq<Seq<char>>, b: Seq<Seq<char>>) -> bool {
    forall|name: Seq<char>| holds(a, name) == holds(b, name)
}

fn contains(list: &Vec<String>, name: &str) -> (found: bool)
    ensures
        found == holds(list.deep_view(), name@),
{
    let mut i: usize = 0;
    while i < list.len()
        invariant
            i <= list.len(),
            forall|j: int| 0 <= j < i ==> list.deep_view()[j] != name@,
        decreases list.len() - i,
    {
        if same_text(list[i].as_str(), name) {
            assert(list.deep_view()[i as int] == name@);
            return true;
        }
        i += 1;
    }
    false
}

fn includes(a: &Vec<String>, b: &Vec<String>) -> (all: bool)
    ensures
        all == (forall|name: Seq<char>| holds(a.deep_view(), name) ==> holds(b.deep_view(), name)),
{
    let mut i: usize = 0;
    while i < a.len()
        invariant
            i <= a.len(),
            forall|j: int| 0 <= j < i ==> holds(b.deep_view(), a.deep_view()[j]),
        decreases a.len() - i,
    {
        if !contains(b, a[i].as_str()) {
            assert(holds(a.deep_view(), a.deep_view()[i as int]));
            return false;
        }
        i += 1;
    }
    true
}

fn same_list(a: &Vec<String>, b: &Vec<String>) -> (same: bool)
    ensures
        same == (a.deep_view() == b.deep_view()),
{
    if a.len() != b.len() {
        assert(a.deep_view().len() != b.deep_view().len());
        return false;
    }
    let mut i: usize = 0;
    while i < a.len()
        invariant
            i <= a.len(),
            a.len() == b.len(),
            forall|j: int| 0 <= j < i ==> a.deep_view()[j] == b.deep_view()[j],
        decreases a.len() - i,
    {
        if !same_text(a[i].as_str(), b[i].as_str()) {
            assert(a.deep_view()[i as int] != b.deep_view()[i as int]);
            return false;
        }
        i += 1;
    }
    assert(a.deep_view() =~= b.deep_view());
    true
}

impl Config {
    /// The settings to start from: nowhere to search, no extensions, no
    /// gain, and the cache and the log at the paths given.
    pub fn default_from_config_dir(cache_path: String, log_path: String) -> (config: Config)
        ensures
            config.search_directories@.len() == 0,
            config.extensions@.len() == 0,
            config.cache_path@ == cache_path@,
            config.log_path@ == log_path@,
            config.gain.bits == 0,
    {
        Config {
            search_directories: Vec::new(),
            extensions: Vec::new(),
            cache_path,
            log_path,
            gain: Gain::from_bits(0),
        }
    }

    /// Whether a file with this extension counts as a song: it has an
    /// extension, and the settings name it.
    pub fn accepts(&self, extension: Option<&str>) -> (wanted: bool)
        ensures
            wanted == match extension {
                Some(e) => holds(self.extensions.deep_view(), e@),
                None => false,
            },
    {
        match extension {
            Some(e) => contains(&self.extensions, e),
            None => false,
        }
    }

    /// Whether a cache built under the settings `old` has to be built anew
    /// under these: the directories searched differ, or the extensions do.
    pub fn needs_rebuild(&self, old: &Config) -> (rebuild: bool)
        ensures
            rebuild == (self.search_directories.deep_view() != old.search_directories.deep_view()
                || !same_names(self.extensions.deep_view(), old.extensions.deep_view())),
    {
        if !same_list(&self.search_directories, &old.search_directories) {
            return true;
        }
        let forth = includes(&self.extensions, &old.extensions);
        let back = includes(&old.extensions, &self.extensions);
        !(forth && back)
    }
}

} // verus!
