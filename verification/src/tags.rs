//! The two tag mappings of a song: one keyed by standard key, one by the
//! container's own key text. Each key occurs at most once.

use vstd::prelude::*;
use crate::keys::StandardTagKey;
use crate::value::{Value, ValueModel};

verus! {

/// A mapping from standard tag keys to values.
#[derive(Debug)]
pub struct StandardTags {
    entries: Vec<(StandardTagKey, Value)>,
}

impl View for StandardTags {
    type V = Map<StandardTagKey, ValueModel>;

    closed spec fn view(&self) -> Map<StandardTagKey, ValueModel> {
        Map::new(
            |k: StandardTagKey| self.holds(k),
            |k: StandardTagKey| self.entries@[self.place(k)].1@,
        )
    }
}

impl DeepView for StandardTags {
    type V = Map<StandardTagKey, ValueModel>;

    open spec fn deep_view(&self) -> Map<StandardTagKey, ValueModel> {
        self@
    }
}

impl StandardTags {
    /// No key is held twice. This holds of every value of the type.
    #[verifier::type_invariant]
    pub closed spec fn distinct(self) -> bool {
        forall|i: int, j: int|
            0 <= i < j < self.entries@.len() ==> self.entries@[i].0 != self.entries@[j].0
    }

    spec fn holds(&self, key: StandardTagKey) -> bool {
        exists|i: int| 0 <= i < self.entries@.len() && self.entries@[i].0 == key
    }

    spec fn place(&self, key: StandardTagKey) -> int {
        choose|i: int| 0 <= i < self.entries@.len() && self.entries@[i].0 == key
    }

    /// The entries in the order they are listed: every key of the mapping
    /// once, each with its value.
    pub closed spec fn listing(&self) -> Seq<(StandardTagKey, ValueModel)> {
        Seq::new(self.entries@.len(), |i: int| (self.entries@[i].0, self.entries@[i].1@))
    }

    /// The listing holds exactly the mapping: each listed pair is in it,
    /// each of its keys is listed, and no key is listed twice.
    pub proof fn lemma_listing(&self)
        requires
            self.distinct(),
        ensures
            forall|i: int|
                0 <= i < self.listing().len() ==> self@.contains_key(
                    (#[trigger] self.listing()[i]).0,
                ) && self@[self.listing()[i].0] == self.listing()[i].1,
            forall|k: StandardTagKey|
                self@.contains_key(k) ==> exists|i: int|
                    0 <= i < self.listing().len() && (#[trigger] self.listing()[i]).0 == k,
            forall|i: int, j: int|
                0 <= i < j < self.listing().len() ==> (#[trigger] self.listing()[i]).0 != (
                #[trigger] self.listing()[j]).0,
    {
        assert forall|i: int| 0 <= i < self.listing().len() implies self@.contains_key(
            (#[trigger] self.listing()[i]).0,
        ) && self@[self.listing()[i].0] == self.listing()[i].1 by {
            let k = self.entries@[i].0;
            assert(self.holds(k));
            let p = self.place(k);
            assert(p == i);
        }
        assert forall|k: StandardTagKey| self@.contains_key(k) implies exists|i: int|
            0 <= i < self.listing().len() && (#[trigger] self.listing()[i]).0 == k by {
            let p = self.place(k);
            assert(self.listing()[p].0 == k);
        }
    }

    /// The empty mapping: it holds no key and lists nothing.
    pub fn new() -> (tags: StandardTags)
        ensures
            tags@ == Map::<StandardTagKey, ValueModel>::empty(),
            tags.listing() == Seq::<(StandardTagKey, ValueModel)>::empty(),
    {
        let tags = StandardTags { entries: Vec::new() };
        assert(tags@ =~= Map::<StandardTagKey, ValueModel>::empty());
        assert(tags.listing() =~= Seq::<(StandardTagKey, ValueModel)>::empty());
        tags
    }

    /// The number of keys.
    pub fn len(&self) -> (n: usize)
        ensures
            n == self.listing().len(),
    {
        self.entries.len()
    }

    /// The key and value listed at `index`.
    pub fn entry(&self, index: usize) -> (pair: (StandardTagKey, &Value))
        requires
            index < self.listing().len(),
        ensures
            pair.0 == self.listing()[index as int].0,
            pair.1@ == self.listing()[index as int].1,
    {
        (self.entries[index].0, &self.entries[index].1)
    }

    fn find(&self, key: StandardTagKey) -> (at: Option<usize>)
        ensures
            match at {
                Some(i) => i < self.entries@.len() && self.entries@[i as int].0 == key
                    && self.holds(key) && self.place(key) == i,
                None => !self.holds(key),
            },
    {
        proof {
            use_type_invariant(self);
        }
        let mut i: usize = 0;
        while i < self.entries.len()
            invariant
                i <= self.entries.len(),
                self.distinct(),
                forall|j: int| 0 <= j < i ==> self.entries@[j].0 != key,
            decreases self.entries.len() - i,
        {
            if self.entries[i].0 == key {
                assert(self.holds(key));
                return Some(i);
            }
            i += 1;
        }
        None
    }

    /// The value under `key`, if the mapping has one.
    pub fn get(&self, key: StandardTagKey) -> (value: Option<&Value>)
        ensures
            match value {
                Some(v) => self@.contains_key(key) && self@[key] == v@,
                None => !self@.contains_key(key),
            },
    {
        match self.find(key) {
            Some(i) => Some(&self.entries[i].1),
            None => None,
        }
    }

    /// The mapping with `value` under `key`, in place of the value that was
    /// there.
    pub fn insert(self, key: StandardTagKey, value: Value) -> (tags: StandardTags)
        ensures
            tags@ == self@.insert(key, value@),
    {
        proof {
            use_type_invariant(&self);
        }
        let ghost before = self;
        let ghost model = value@;
        let found = self.find(key);
        let mut entries = self.entries;
        let tags = match found {
            Some(i) => {
                entries.set(i, (key, value));
                StandardTags { entries }
            },
            None => {
                entries.push((key, value));
                StandardTags { entries }
            },
        };
        proof {
            tags.lemma_inserted(before, found, key, model);
        }
        tags
    }

    proof fn lemma_inserted(
        self,
        before: StandardTags,
        found: Option<usize>,
        key: StandardTagKey,
        model: ValueModel,
    )
        requires
            before.distinct(),
            self.distinct(),
            match found {
                Some(i) => i < before.entries@.len() && before.entries@[i as int].0 == key
                    && self.entries@.len() == before.entries@.len() && self.entries@[i as int].0
                    == key && self.entries@[i as int].1@ == model && forall|j: int|
                    0 <= j < before.entries@.len() && j != i ==> self.entries@[j]
                        == before.entries@[j],
                None => !before.holds(key) && self.entries@.len() == before.entries@.len() + 1
                    && self.entries@[before.entries@.len() as int].0 == key
                    && self.entries@[before.entries@.len() as int].1@ == model && forall|j: int|
                    0 <= j < before.entries@.len() ==> self.entries@[j] == before.entries@[j],
            },
        ensures
            self@ == before@.insert(key, model),
    {
        match found {
            Some(i) => {
                assert forall|k: StandardTagKey| self.holds(k) == (before.holds(k) || k == key) by {
                    if self.holds(k) {
                        let p = self.place(k);
                        assert(before.entries@[p].0 == k);
                    }
                    if before.holds(k) {
                        let p = before.place(k);
                        assert(self.entries@[p].0 == k);
                    }
                    if k == key {
                        assert(self.entries@[i as int].0 == k);
                    }
                }
                assert forall|k: StandardTagKey| self.holds(k) implies self.entries@[self.place(
                    k,
                )].1@ == before@.insert(key, model)[k] by {
                    let p = self.place(k);
                    if k != key {
                        assert(before.entries@[p].0 == k);
                        assert(before.place(k) == p);
                    }
                }
            },
            None => {
                let n = before.entries@.len() as int;
                assert forall|k: StandardTagKey| self.holds(k) == (before.holds(k) || k == key) by {
                    if self.holds(k) {
                        let p = self.place(k);
                        if p < n {
                            assert(before.entries@[p].0 == k);
                        }
                    }
                    if before.holds(k) {
                        let p = before.place(k);
                        assert(self.entries@[p].0 == k);
                    }
                    if k == key {
                        assert(self.entries@[n].0 == k);
                    }
                }
                assert forall|k: StandardTagKey| self.holds(k) implies self.entries@[self.place(
                    k,
                )].1@ == before@.insert(key, model)[k] by {
                    let p = self.place(k);
                    if k != key {
                        assert(before.entries@[p].0 == k);
                        assert(before.place(k) == p);
                    }
                }
            },
        }
        assert(self@ =~= before@.insert(key, model));
    }
}

impl Clone for StandardTags {
    fn clone(&self) -> (copy: Self)
        ensures
            copy@ == self@,
            copy.listing() == self.listing(),
    {
        proof {
            use_type_invariant(self);
        }
        let mut entries: Vec<(StandardTagKey, Value)> = Vec::new();
        let mut i: usize = 0;
        while i < self.entries.len()
            invariant
                i <= self.entries.len(),
                entries.len() == i,
                forall|j: int|
                    0 <= j < i ==> entries@[j].0 == self.entries@[j].0 && entries@[j].1@
                        == self.entries@[j].1@,
            decreases self.entries.len() - i,
        {
            entries.push((self.entries[i].0, self.entries[i].1.clone()));
            i += 1;
        }
        let copy = StandardTags { entries };
        proof {
            assert(copy.listing() =~= self.listing());
            assert forall|k: StandardTagKey| copy.holds(k) == self.holds(k) by {
                if copy.holds(k) {
                    assert(self.entries@[copy.place(k)].0 == k);
                }
                if self.holds(k) {
                    assert(copy.entries@[self.place(k)].0 == k);
                }
            }
            assert forall|k: StandardTagKey| copy.holds(k) implies copy.place(k) == self.place(
                k,
            ) by {
                assert(self.entries@[copy.place(k)].0 == k);
            }
            assert(copy@ =~= self@);
        }
        copy
    }
}

/// A mapping from a container's own key texts to values.
#[derive(Debug)]
pub struct OtherTags {
    entries: Vec<(String, Value)>,
}

impl View for OtherTags {
    type V = Map<Seq<char>, ValueModel>;

    closed spec fn view(&self) -> Map<Seq<char>, ValueModel> {
        Map::new(|k: Seq<char>| self.holds(k), |k: Seq<char>| self.entries@[self.place(k)].1@)
    }
}

impl DeepView for OtherTags {
    type V = Map<Seq<char>, ValueModel>;

    open spec fn deep_view(&self) -> Map<Seq<char>, ValueModel> {
        self@
    }
}

impl OtherTags {
    /// No key is held twice. This holds of every value of the type.
    #[verifier::type_invariant]
    pub closed spec fn distinct(self) -> bool {
        forall|i: int, j: int|
            0 <= i < j < self.entries@.len() ==> self.entries@[i].0@ != self.entries@[j].0@
    }

    spec fn holds(&self, key: Seq<char>) -> bool {
        exists|i: int| 0 <= i < self.entries@.len() && self.entries@[i].0@ == key
    }

    spec fn place(&self, key: Seq<char>) -> int {
        choose|i: int| 0 <= i < self.entries@.len() && self.entries@[i].0@ == key
    }

    /// The entries in the order they are listed: every key of the mapping
    /// once, each with its value.
    pub closed spec fn listing(&self) -> Seq<(Seq<char>, ValueModel)> {
        Seq::new(self.entries@.len(), |i: int| (self.entries@[i].0@, self.entries@[i].1@))
    }

    /// The empty mapping: it holds no key and lists nothing.
    pub fn new() -> (tags: OtherTags)
        ensures
            tags@ == Map::<Seq<char>, ValueModel>::empty(),
            tags.listing() == Seq::<(Seq<char>, ValueModel)>::empty(),
    {
        let tags = OtherTags { entries: Vec::new() };
        assert(tags@ =~= Map::<Seq<char>, ValueModel>::empty());
        assert(tags.listing() =~= Seq::<(Seq<char>, ValueModel)>::empty());
        tags
    }

    /// The number of keys.
    pub fn len(&self) -> (n: usize)
        ensures
            n == self.listing().len(),
    {
        self.entries.len()
    }

    /// The key and value listed at `index`.
    pub fn entry(&self, index: usize) -> (pair: (&String, &Value))
        requires
            index < self.listing().len(),
        ensures
            pair.0@ == self.listing()[index as int].0,
            pair.1@ == self.listing()[index as int].1,
    {
        (&self.entries[index].0, &self.entries[index].1)
    }

    fn find(&self, key: &String) -> (at: Option<usize>)
        ensures
            match at {
                Some(i) => i < self.entries@.len() && self.entries@[i as int].0@ == key@
                    && self.holds(key@) && self.place(key@) == i,
                None => !self.holds(key@),
            },
    {
        proof {
            use_type_invariant(self);
        }
        let mut i: usize = 0;
        while i < self.entries.len()
            invariant
                i <= self.entries.len(),
                self.distinct(),
                forall|j: int| 0 <= j < i ==> self.entries@[j].0@ != key@,
            decreases self.entries.len() - i,
        {
            if self.entries[i].0 == *key {
                assert(self.holds(key@));
                return Some(i);
            }
            i += 1;
        }
        None
    }

    /// The value under `key`, if the mapping has one.
    pub fn get(&self, key: &String) -> (value: Option<&Value>)
        ensures
            match value {
                Some(v) => self@.contains_key(key@) && self@[key@] == v@,
                None => !self@.contains_key(key@),
            },
    {
        match self.find(key) {
            Some(i) => Some(&self.entries[i].1),
            None => None,
        }
    }

    /// The mapping with `value` under `key`, in place of the value that was
    /// there.
    pub fn insert(self, key: String, value: Value) -> (tags: OtherTags)
        ensures
            tags@ == self@.insert(key@, value@),
    {
        proof {
            use_type_invariant(&self);
        }
        let ghost before = self;
        let ghost model = value@;
        let ghost name = key@;
        let found = self.find(&key);
        let mut entries = self.entries;
        let tags = match found {
            Some(i) => {
                entries.set(i, (key, value));
                OtherTags { entries }
            },
            None => {
                entries.push((key, value));
                OtherTags { entries }
            },
        };
        proof {
            tags.lemma_inserted(before, found, name, model);
        }
        tags
    }

    proof fn lemma_inserted(
        self,
        before: OtherTags,
        found: Option<usize>,
        name: Seq<char>,
        model: ValueModel,
    )
        requires
            before.distinct(),
            self.distinct(),
            match found {
                Some(i) => i < before.entries@.len() && before.entries@[i as int].0@ == name
                    && self.entries@.len() == before.entries@.len() && self.entries@[i as int].0@
                    == name && self.entries@[i as int].1@ == model && forall|j: int|
                    0 <= j < before.entries@.len() && j != i ==> self.entries@[j]
                        == before.entries@[j],
                None => !before.holds(name) && self.entries@.len() == before.entries@.len() + 1
                    && self.entries@[before.entries@.len() as int].0@ == name
                    && self.entries@[before.entries@.len() as int].1@ == model && forall|j: int|
                    0 <= j < before.entries@.len() ==> self.entries@[j] == before.entries@[j],
            },
        ensures
            self@ == before@.insert(name, model),
    {
        match found {
            Some(i) => {
                assert forall|k: Seq<char>| self.holds(k) == (before.holds(k) || k == name) by {
                    if self.holds(k) {
                        let p = self.place(k);
                        assert(before.entries@[p].0@ == k);
                    }
                    if before.holds(k) {
                        let p = before.place(k);
                        assert(self.entries@[p].0@ == k);
                    }
                    if k == name {
                        assert(self.entries@[i as int].0@ == k);
                    }
                }
                assert forall|k: Seq<char>| self.holds(k) implies self.entries@[self.place(k)].1@
                    == before@.insert(name, model)[k] by {
                    let p = self.place(k);
                    if k != name {
                        assert(before.entries@[p].0@ == k);
                        assert(before.place(k) == p);
                    }
                }
            },
            None => {
                let n = before.entries@.len() as int;
                assert forall|k: Seq<char>| self.holds(k) == (before.holds(k) || k == name) by {
                    if self.holds(k) {
                        let p = self.place(k);
                        if p < n {
                            assert(before.entries@[p].0@ == k);
                        }
                    }
                    if before.holds(k) {
                        let p = before.place(k);
                        assert(self.entries@[p].0@ == k);
                    }
                    if k == name {
                        assert(self.entries@[n].0@ == k);
                    }
                }
                assert forall|k: Seq<char>| self.holds(k) implies self.entries@[self.place(k)].1@
                    == before@.insert(name, model)[k] by {
                    let p = self.place(k);
                    if k != name {
                        assert(before.entries@[p].0@ == k);
                        assert(before.place(k) == p);
                    }
                }
            },
        }
        assert(self@ =~= before@.insert(name, model));
    }
}

impl Clone for OtherTags {
    fn clone(&self) -> (copy: Self)
        ensures
            copy@ == self@,
            copy.listing() == self.listing(),
    {
        proof {
            use_type_invariant(self);
        }
        let mut entries: Vec<(String, Value)> = Vec::new();
        let mut i: usize = 0;
        while i < self.entries.len()
            invariant
                i <= self.entries.len(),
                entries.len() == i,
                forall|j: int|
                    0 <= j < i ==> entries@[j].0@ == self.entries@[j].0@ && entries@[j].1@
                        == self.entries@[j].1@,
            decreases self.entries.len() - i,
        {
            entries.push((self.entries[i].0.clone(), self.entries[i].1.clone()));
            i += 1;
        }
        let copy = OtherTags { entries };
        proof {
            assert(copy.listing() =~= self.listing());
            assert forall|k: Seq<char>| copy.holds(k) == self.holds(k) by {
                if copy.holds(k) {
                    assert(self.entries@[copy.place(k)].0@ == k);
                }
                if self.holds(k) {
                    assert(copy.entries@[self.place(k)].0@ == k);
                }
            }
            assert forall|k: Seq<char>| copy.holds(k) implies copy.place(k) == self.place(k) by {
                assert(self.entries@[copy.place(k)].0@ == k);
            }
            assert(copy@ =~= self@);
        }
        copy
    }
}

} // verus!
