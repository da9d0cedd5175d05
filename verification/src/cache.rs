//! The metadata cache: a tree of directories and files keyed by the
//! components of their paths.

use vstd::prelude::*;
use crate::song::{Song, SongModel};
use crate::value::clone_strings;

verus! {

/// Why a cache operation was refused.
#[derive(Clone, Copy, Debug, PartialEq, Eq, Structural)]
pub enum CacheError {
    /// The path has no components.
    EmptyPath,
    /// The path leads through, or the entry is, a file where a directory is
    /// needed.
    NotADirectory,
    /// The entry is a directory where a file is needed.
    NotAFile,
}

/// A node of the cache: a file with its song, or a directory with its named
/// children.
#[derive(Debug)]
pub enum CacheEntry {
    File { song: Song },
    Directory { children: Vec<(String, CacheEntry)> },
}

/// Whether some child in `children` is named `name`.
pub open spec fn has_child(children: Seq<(String, CacheEntry)>, name: Seq<char>) -> bool {
    exists|i: int| 0 <= i < children.len() && children[i].0@ == name
}

/// Whether `i` is the place of the first child in `children` named `name`.
pub open spec fn is_first_named(children: Seq<(String, CacheEntry)>, name: Seq<char>, i: int) -> bool {
    &&& 0 <= i < children.len()
    &&& children[i].0@ == name
    &&& forall|j: int| 0 <= j < i ==> children[j].0@ != name
}

/// The place of the first child in `children` named `name`.
pub open spec fn position(children: Seq<(String, CacheEntry)>, name: Seq<char>) -> int {
    choose|i: int| is_first_named(children, name, i)
}

/// A first child named `name` sits at one place only, which `position` gives.
pub proof fn lemma_position(children: Seq<(String, CacheEntry)>, name: Seq<char>, i: int)
    requires
        is_first_named(children, name, i),
    ensures
        has_child(children, name),
        position(children, name) == i,
{
    let p = position(children, name);
    assert(is_first_named(children, name, p));
    if p < i {
        assert(children[p].0@ != name);
    }
    if i < p {
        assert(children[i].0@ != name);
    }
}

/// If some child has the name, a first one has it.
pub proof fn lemma_has_first(children: Seq<(String, CacheEntry)>, name: Seq<char>)
    requires
        has_child(children, name),
    ensures
        is_first_named(children, name, position(children, name)),
    decreases children.len(),
{
    let w = choose|i: int| 0 <= i < children.len() && children[i].0@ == name;
    lemma_first_before(children, name, w);
}

proof fn lemma_first_before(children: Seq<(String, CacheEntry)>, name: Seq<char>, w: int)
    requires
        0 <= w < children.len(),
        children[w].0@ == name,
    ensures
        is_first_named(children, name, position(children, name)),
    decreases w,
{
    if forall|j: int| 0 <= j < w ==> children[j].0@ != name {
        assert(is_first_named(children, name, w));
    } else {
        let j = choose|j: int| 0 <= j < w && children[j].0@ == name;
        lemma_first_before(children, name, j);
    }
}

/// What the tree below `children` holds at `path`: the entry, nothing, or an
/// error where the path is empty or leads through a file.
pub open spec fn lookup(children: Seq<(String, CacheEntry)>, path: Seq<Seq<char>>) -> Result<
    Option<CacheEntry>,
    CacheError,
>
    decreases path.len(),
{
    if path.len() == 0 {
        Err(CacheError::EmptyPath)
    } else if !has_child(children, path[0]) {
        Ok(None)
    } else {
        let child = children[position(children, path[0])].1;
        if path.len() == 1 {
            Ok(Some(child))
        } else {
            match child {
                CacheEntry::File { .. } => Err(CacheError::NotADirectory),
                CacheEntry::Directory { children: inner } => lookup(inner@, path.drop_first()),
            }
        }
    }
}

/// The song of the file at `path` in the tree below `children`, if a file is
/// there.
pub open spec fn song_at(children: Seq<(String, CacheEntry)>, path: Seq<Seq<char>>) -> Option<
    SongModel,
> {
    match lookup(children, path) {
        Ok(Some(CacheEntry::File { song })) => Some(song@),
        _ => None,
    }
}

/// Whether a file can be put at `path`: the path is not empty and no file
/// stands where it needs a directory.
pub open spec fn insertable(children: Seq<(String, CacheEntry)>, path: Seq<Seq<char>>) -> bool
    decreases path.len(),
{
    if path.len() == 0 {
        false
    } else if path.len() == 1 || !has_child(children, path[0]) {
        true
    } else {
        match children[position(children, path[0])].1 {
            CacheEntry::File { .. } => false,
            CacheEntry::Directory { children: inner } => insertable(inner@, path.drop_first()),
        }
    }
}

/// What `song_at` gives at `query` once a file with `song` has been put at
/// `path`, where `before` is what it gave until then: the new song at the
/// path itself, nothing below it, and elsewhere what was there.
pub open spec fn song_after_insert(
    before: Option<SongModel>,
    path: Seq<Seq<char>>,
    song: SongModel,
    query: Seq<Seq<char>>,
) -> Option<SongModel> {
    if query == path {
        Some(song)
    } else if path.is_prefix_of(query) {
        None
    } else {
        before
    }
}

/// Whether a lookup found a directory.
pub open spec fn holds_directory(found: Result<Option<CacheEntry>, CacheError>) -> bool {
    found matches Ok(Some(e)) && e is Directory
}

fn find_child(children: &Vec<(String, CacheEntry)>, name: &String) -> (at: Option<usize>)
    ensures
        match at {
            Some(i) => is_first_named(children@, name@, i as int) && has_child(
                children@,
                name@,
            ) && position(children@, name@) == i,
            None => !has_child(children@, name@),
        },
{
    let mut i: usize = 0;
    while i < children.len()
        invariant
            i <= children.len(),
            forall|j: int| 0 <= j < i ==> children@[j].0@ != name@,
        decreases children.len() - i,
    {
        if children[i].0 == *name {
            proof {
                lemma_position(children@, name@, i as int);
            }
            return Some(i);
        }
        i += 1;
    }
    None
}


/// The files of the tree below `children`, from the child at `from` on, in
/// the order a walk meets them, depth first: each with its path, which
/// begins with `prefix`, and its song.
pub open spec fn files_from(children: Vec<(String, CacheEntry)>, from: nat, prefix: Seq<Seq<char>>) -> Seq<
    (Seq<Seq<char>>, SongModel),
>
    decreases children, children@.len() - from,
{
    if from >= children@.len() {
        Seq::empty()
    } else {
        let here = prefix.push(children@[from as int].0@);
        let first = match children@[from as int].1 {
            CacheEntry::File { song } => seq![(here, song@)],
            CacheEntry::Directory { children: inner } => files_from(inner, 0, here),
        };
        first + files_from(children, from + 1, prefix)
    }
}

/// Whether the tree below `children` is well formed: in every directory
/// each name is held once.
pub open spec fn well_formed(children: Vec<(String, CacheEntry)>) -> bool
    decreases children,
{
    &&& forall|i: int, j: int|
        0 <= i < j < children@.len() ==> children@[i].0@ != children@[j].0@
    &&& forall|i: int|
        0 <= i < children@.len() ==> match #[trigger] children@[i].1 {
            CacheEntry::Directory { children: inner } => well_formed(inner),
            CacheEntry::File { .. } => true,
        }
}

/// In a well-formed tree a child is the first of its name.
pub proof fn lemma_child_is_first(children: Vec<(String, CacheEntry)>, i: int)
    requires
        well_formed(children),
        0 <= i < children@.len(),
    ensures
        is_first_named(children@, children@[i].0@, i),
        has_child(children@, children@[i].0@),
        position(children@, children@[i].0@) == i,
{
    lemma_position(children@, children@[i].0@, i);
}

/// Every file that the listing of a well-formed tree names is found at its
/// path: the path begins with the prefix given to the listing, and a walk
/// along the rest of it finds the file's song.
pub proof fn lemma_listed_is_found(
    children: Vec<(String, CacheEntry)>,
    from: nat,
    prefix: Seq<Seq<char>>,
    k: int,
)
    requires
        well_formed(children),
        0 <= k < files_from(children, from, prefix).len(),
    ensures
        files_from(children, from, prefix)[k].0.len() > prefix.len(),
        files_from(children, from, prefix)[k].0.take(prefix.len() as int) == prefix,
        song_at(children@, files_from(children, from, prefix)[k].0.skip(prefix.len() as int))
            == Some(files_from(children, from, prefix)[k].1),
    decreases children, children@.len() - from,
{
    if from < children@.len() {
        let name = children@[from as int].0@;
        let here = prefix.push(name);
        let first = match children@[from as int].1 {
            CacheEntry::File { song } => seq![(here, song@)],
            CacheEntry::Directory { children: inner } => files_from(inner, 0, here),
        };
        let rest = files_from(children, from + 1, prefix);
        assert(files_from(children, from, prefix) == first + rest);
        lemma_child_is_first(children, from as int);
        if k < first.len() {
            let (path, song) = first[k];
            match children@[from as int].1 {
                CacheEntry::File { song: held } => {
                    assert(path == here);
                    assert(here.take(prefix.len() as int) =~= prefix);
                    assert(here.skip(prefix.len() as int) =~= seq![name]);
                },
                CacheEntry::Directory { children: inner } => {
                    lemma_listed_is_found(inner, 0, here, k);
                    let walk = path.skip(prefix.len() as int);
                    assert(path.take(here.len() as int) == here);
                    assert(path.take(prefix.len() as int) =~= prefix) by {
                        assert forall|i: int| 0 <= i < prefix.len() implies path[i] == prefix[i] by {
                            assert(path.take(here.len() as int)[i] == here[i]);
                        }
                    }
                    assert(walk[0] == name) by {
                        assert(path.take(here.len() as int)[prefix.len() as int] == here[prefix.len() as int]);
                    }
                    assert(walk.drop_first() =~= path.skip(here.len() as int));
                    assert(walk.len() > 1);
                },
            }
        } else {
            lemma_listed_is_found(children, from + 1, prefix, k - first.len());
        }
    }
}

/// Every file of a well-formed tree is in its listing: if a walk along
/// `walk` finds a song and begins at a child from `from` on, the listing
/// from there names the song at `prefix` followed by `walk`. The lemma gives
/// the place in the listing.
pub proof fn lemma_found_is_listed(
    children: Vec<(String, CacheEntry)>,
    from: nat,
    prefix: Seq<Seq<char>>,
    walk: Seq<Seq<char>>,
) -> (k: int)
    requires
        well_formed(children),
        song_at(children@, walk) is Some,
        walk.len() > 0 ==> from <= position(children@, walk[0]),
    ensures
        0 <= k < files_from(children, from, prefix).len(),
        files_from(children, from, prefix)[k] == (prefix + walk, song_at(children@, walk)->Some_0),
    decreases children, children@.len() - from,
{
    assert(walk.len() > 0);
    assert(has_child(children@, walk[0]));
    lemma_has_first(children@, walk[0]);
    let at = position(children@, walk[0]);
    let name = children@[from as int].0@;
    let here = prefix.push(name);
    let first = match children@[from as int].1 {
        CacheEntry::File { song } => seq![(here, song@)],
        CacheEntry::Directory { children: inner } => files_from(inner, 0, here),
    };
    let rest = files_from(children, from + 1, prefix);
    assert(files_from(children, from, prefix) == first + rest);
    if from == at {
        match children@[from as int].1 {
            CacheEntry::File { song } => {
                assert(walk.len() == 1);
                assert(prefix + walk =~= here);
                0
            },
            CacheEntry::Directory { children: inner } => {
                assert(walk.len() > 1);
                let below = walk.drop_first();
                assert(song_at(inner@, below) == song_at(children@, walk));
                if below.len() > 0 && has_child(inner@, below[0]) {
                    lemma_has_first(inner@, below[0]);
                }
                let k = lemma_found_is_listed(inner, 0, here, below);
                assert(here + below =~= prefix + walk);
                k
            },
        }
    } else {
        let k = lemma_found_is_listed(children, from + 1, prefix, walk);
        first.len() + k
    }
}

/// What is found on disk at a path.
#[derive(Clone, Copy, Debug, PartialEq, Eq, Structural)]
pub enum OnDisk {
    Missing,
    File,
    Directory,
    Other,
}

/// Whether an entry still stands for what is on disk at its path: a file
/// for a file, a directory for a directory.
pub open spec fn stands_for(entry: CacheEntry, on_disk: OnDisk) -> bool {
    match entry {
        CacheEntry::File { .. } => on_disk == OnDisk::File,
        CacheEntry::Directory { .. } => on_disk == OnDisk::Directory,
    }
}

/// What `song_at` gives at `query` once what was at `path` has been
/// removed, where `before` is what it gave until then: nothing at the path
/// and below it, and elsewhere what was there.
pub open spec fn song_after_remove(
    before: Option<SongModel>,
    path: Seq<Seq<char>>,
    query: Seq<Seq<char>>,
) -> Option<SongModel> {
    if path.is_prefix_of(query) {
        None
    } else {
        before
    }
}

/// Two paths that begin with the same component are equal, or one a prefix
/// of the other, exactly when what follows the component is.
pub proof fn lemma_same_head(p: Seq<Seq<char>>, q: Seq<Seq<char>>)
    requires
        p.len() > 0,
        q.len() > 0,
        p[0] == q[0],
    ensures
        (p == q) == (p.drop_first() == q.drop_first()),
        p.is_prefix_of(q) == p.drop_first().is_prefix_of(q.drop_first()),
{
    if p.drop_first() == q.drop_first() {
        assert(p =~= seq![p[0]] + p.drop_first());
        assert(q =~= seq![q[0]] + q.drop_first());
    }
    if p.is_prefix_of(q) {
        assert(p =~= q.subrange(0, p.len() as int));
        assert(p.drop_first() =~= q.drop_first().subrange(0, p.len() - 1));
    }
    if p.drop_first().is_prefix_of(q.drop_first()) {
        assert(p.drop_first() =~= q.drop_first().subrange(0, p.len() - 1));
        assert forall|i: int| 0 <= i < p.len() implies p[i] == q.subrange(0, p.len() as int)[i] by {
            if i > 0 {
                assert(p[i] == p.drop_first()[i - 1]);
                assert(q[i] == q.drop_first()[i - 1]);
            }
        }
        assert(p =~= q.subrange(0, p.len() as int));
    }
}

/// Two paths that begin with different components are not equal, and
/// neither is a prefix of the other.
pub proof fn lemma_other_head(p: Seq<Seq<char>>, q: Seq<Seq<char>>)
    requires
        p.len() > 0,
        q.len() > 0,
        p[0] != q[0],
    ensures
        p != q,
        !p.is_prefix_of(q),
{
    if p.is_prefix_of(q) {
        assert(p =~= q.subrange(0, p.len() as int));
        assert(p[0] == q.subrange(0, p.len() as int)[0]);
    }
}

/// Where one child is exchanged for another of the same name, a walk that
/// starts with a different name finds what it found before.
proof fn lemma_lookup_elsewhere(
    before: Seq<(String, CacheEntry)>,
    after: Seq<(String, CacheEntry)>,
    name: Seq<char>,
    query: Seq<Seq<char>>,
)
    requires
        query.len() > 0,
        query[0] != name,
        before.len() <= after.len() <= before.len() + 1,
        forall|j: int|
            0 <= j < before.len() && before[j].0@ != name ==> after[j] == before[j],
        forall|j: int| 0 <= j < before.len() ==> after[j].0@ == before[j].0@,
        after.len() > before.len() ==> after[before.len() as int].0@ == name,
    ensures
        lookup(after, query) == lookup(before, query),
{
    let head = query[0];
    if has_child(before, head) {
        lemma_has_first(before, head);
        let i = position(before, head);
        assert(is_first_named(after, head, i));
        lemma_position(after, head, i);
    } else {
        if has_child(after, head) {
            let w = choose|i: int| 0 <= i < after.len() && after[i].0@ == head;
            if w < before.len() {
                assert(before[w].0@ == head);
            }
        }
    }
}

fn check_insertable(children: &Vec<(String, CacheEntry)>, path: &Vec<String>) -> (ok: bool)
    ensures
        ok == insertable(children@, path.deep_view()),
{
    if path.len() == 0 {
        return false;
    }
    let ghost full = path.deep_view();
    let mut level: &Vec<(String, CacheEntry)> = children;
    let mut i: usize = 0;
    assert(full.skip(0) =~= full);
    loop
        invariant
            i < path.len(),
            full == path.deep_view(),
            insertable(children@, full) == insertable(level@, full.skip(i as int)),
        decreases path.len() - i,
    {
        let ghost rest = full.skip(i as int);
        assert(rest[0] == path@[i as int]@);
        if i + 1 == path.len() {
            return true;
        }
        match find_child(level, &path[i]) {
            None => {
                return true;
            },
            Some(at) => {
                match &level[at].1 {
                    CacheEntry::File { .. } => {
                        return false;
                    },
                    CacheEntry::Directory { children: inner } => {
                        assert(rest.drop_first() =~= full.skip(i + 1));
                        level = inner;
                        i += 1;
                    },
                }
            },
        }
    }
}

fn insert_in(children: Vec<(String, CacheEntry)>, path: &Vec<String>, from: usize, song: Song) -> (out:
    Vec<(String, CacheEntry)>)
    requires
        from < path.len(),
        insertable(children@, path.deep_view().skip(from as int)),
        well_formed(children),
    ensures
        forall|query: Seq<Seq<char>>|
            #[trigger] song_at(out@, query) == song_after_insert(
                song_at(children@, query),
                path.deep_view().skip(from as int),
                song@,
                query,
            ),
        well_formed(out),
    decreases path.len() - from,
{
    let ghost before = children@;
    let ghost target = path.deep_view().skip(from as int);
    let ghost model = song@;
    let name = path[from].clone();
    assert(target[0] == name@);
    assert(target.drop_first() =~= path.deep_view().skip(from + 1));
    let found = find_child(&children, &name);
    let last = from + 1 == path.len();
    let mut children = children;
    match found {
        Some(at) => {
            if last {
                children.set(at, (name, CacheEntry::File { song }));
                proof {
                    let after = children@;
                    assert(is_first_named(after, name@, at as int));
                    lemma_position(after, name@, at as int);
                    assert forall|query: Seq<Seq<char>>| #[trigger]
                        song_at(after, query) == song_after_insert(
                            song_at(before, query),
                            target,
                            model,
                            query,
                        ) by {
                        if query.len() > 0 {
                            if query[0] == name@ {
                                lemma_same_head(target, query);
                                assert(target.drop_first() =~= Seq::<Seq<char>>::empty());
                                if query.len() == 1 {
                                    assert(query.drop_first() =~= Seq::<Seq<char>>::empty());
                                }
                            } else {
                                lemma_other_head(target, query);
                                lemma_lookup_elsewhere(before, after, name@, query);
                            }
                        }
                    }
                }
                children
            } else {
                let (held, child) = children.remove(at);
                match child {
                    CacheEntry::Directory { children: inner } => {
                        let ghost inner_before = inner@;
                        let inner_after = insert_in(inner, path, from + 1, song);
                        children.insert(at, (held, CacheEntry::Directory { children: inner_after }));
                        proof {
                            let after = children@;
                            assert(after.len() == before.len());
                            assert forall|j: int| 0 <= j < before.len() && j != at implies after[j]
                                == before[j] by {}
                            assert(is_first_named(after, name@, at as int));
                            lemma_position(after, name@, at as int);
                            assert forall|query: Seq<Seq<char>>| #[trigger]
                                song_at(after, query) == song_after_insert(
                                    song_at(before, query),
                                    target,
                                    model,
                                    query,
                                ) by {
                                if query.len() > 0 {
                                    if query[0] == name@ {
                                        lemma_same_head(target, query);
                                        if query.len() > 1 {
                                            assert(song_at(after, query) == song_at(
                                                inner_after@,
                                                query.drop_first(),
                                            ));
                                            assert(song_at(before, query) == song_at(
                                                inner_before,
                                                query.drop_first(),
                                            ));
                                        } else {
                                            assert(query.drop_first().len() == 0);
                                            assert(target.drop_first().len() > 0);
                                        }
                                    } else {
                                        lemma_other_head(target, query);
                                        lemma_lookup_elsewhere(before, after, name@, query);
                                    }
                                }
                            }
                        }
                    },
                    CacheEntry::File { song: kept } => {
                        children.insert(at, (held, CacheEntry::File { song: kept }));
                    },
                }
                children
            }
        },
        None => {
            if last {
                children.push((name, CacheEntry::File { song }));
                proof {
                    let after = children@;
                    let at = before.len() as int;
                    assert(is_first_named(after, name@, at));
                    lemma_position(after, name@, at);
                    assert forall|query: Seq<Seq<char>>| #[trigger]
                        song_at(after, query) == song_after_insert(
                            song_at(before, query),
                            target,
                            model,
                            query,
                        ) by {
                        if query.len() > 0 {
                            if query[0] == name@ {
                                lemma_same_head(target, query);
                                assert(target.drop_first() =~= Seq::<Seq<char>>::empty());
                                if query.len() == 1 {
                                    assert(query.drop_first() =~= Seq::<Seq<char>>::empty());
                                }
                            } else {
                                lemma_other_head(target, query);
                                lemma_lookup_elsewhere(before, after, name@, query);
                            }
                        }
                    }
                }
            } else {
                let inner_after = insert_in(Vec::new(), path, from + 1, song);
                children.push((name, CacheEntry::Directory { children: inner_after }));
                proof {
                    let after = children@;
                    let at = before.len() as int;
                    let empty = Seq::<(String, CacheEntry)>::empty();
                    assert(is_first_named(after, name@, at));
                    lemma_position(after, name@, at);
                    assert forall|query: Seq<Seq<char>>| #[trigger]
                        song_at(after, query) == song_after_insert(
                            song_at(before, query),
                            target,
                            model,
                            query,
                        ) by {
                        if query.len() > 0 {
                            if query[0] == name@ {
                                lemma_same_head(target, query);
                                if query.len() > 1 {
                                    assert(song_at(after, query) == song_at(
                                        inner_after@,
                                        query.drop_first(),
                                    ));
                                    let rest = query.drop_first();
                                    assert(!has_child(empty, rest[0]));
                                    assert(song_at(empty, rest) is None);
                                } else {
                                    assert(query.drop_first().len() == 0);
                                    assert(target.drop_first().len() > 0);
                                }
                            } else {
                                lemma_other_head(target, query);
                                lemma_lookup_elsewhere(before, after, name@, query);
                            }
                        }
                    }
                }
            }
            children
        },
    }
}

/// Whether a lookup found an entry.
pub open spec fn holds_entry(found: Result<Option<CacheEntry>, CacheError>) -> bool {
    found matches Ok(Some(_))
}

/// The paths and songs of a list of songs with their paths.
pub open spec fn listing(items: Seq<(Song, Vec<String>)>) -> Seq<(Seq<Seq<char>>, SongModel)> {
    Seq::new(items.len(), |i: int| (items[i].1.deep_view(), items[i].0@))
}

/// Where one child is taken away, a walk that starts with a different name
/// finds what it found before.
proof fn lemma_lookup_removed(
    before: Seq<(String, CacheEntry)>,
    at: int,
    query: Seq<Seq<char>>,
)
    requires
        0 <= at < before.len(),
        query.len() > 0,
        query[0] != before[at].0@,
    ensures
        lookup(before.remove(at), query) == lookup(before, query),
{
    let after = before.remove(at);
    let head = query[0];
    if has_child(before, head) {
        lemma_has_first(before, head);
        let i = position(before, head);
        let to = if i < at {
            i
        } else {
            i - 1
        };
        assert forall|j: int| 0 <= j < to implies after[j].0@ != head by {
            if j < at {
                assert(after[j] == before[j]);
            } else {
                assert(after[j] == before[j + 1]);
            }
        }
        assert(after[to] == before[i]);
        assert(is_first_named(after, head, to));
        lemma_position(after, head, to);
    } else {
        if has_child(after, head) {
            let w = choose|i: int| 0 <= i < after.len() && after[i].0@ == head;
            if w < at {
                assert(before[w].0@ == head);
            } else {
                assert(before[w + 1].0@ == head);
            }
        }
    }
}

fn files_in(children: &Vec<(String, CacheEntry)>, prefix: &Vec<String>) -> (out: Vec<
    (Song, Vec<String>),
>)
    ensures
        listing(out@) == files_from(*children, 0, prefix.deep_view()),
    decreases children,
{
    let mut out: Vec<(Song, Vec<String>)> = Vec::new();
    let mut i: usize = 0;
    let ghost base = prefix.deep_view();
    assert(listing(out@) =~= Seq::empty());
    while i < children.len()
        invariant
            i <= children.len(),
            base == prefix.deep_view(),
            listing(out@) + files_from(*children, i as nat, base) == files_from(*children, 0, base),
        decreases children.len() - i,
    {
        let ghost so_far = out@;
        let mut here = clone_strings(prefix);
        here.push(children[i].0.clone());
        assert(here.deep_view() =~= base.push(children@[i as int].0@));
        match &children[i].1 {
            CacheEntry::File { song } => {
                out.push((song.clone(), here));
                assert(listing(out@) =~= listing(so_far) + seq![
                    (base.push(children@[i as int].0@), song@),
                ]);
            },
            CacheEntry::Directory { children: inner } => {
                let mut below = files_in(inner, &here);
                let ghost found = below@;
                out.append(&mut below);
                assert(listing(out@) =~= listing(so_far) + listing(found));
            },
        }
        i += 1;
    }
    out
}

fn remove_in(children: Vec<(String, CacheEntry)>, path: &Vec<String>, from: usize) -> (out: (
    Vec<(String, CacheEntry)>,
    bool,
))
    requires
        from < path.len(),
        well_formed(children),
    ensures
        well_formed(out.0),
        out.1 == holds_entry(lookup(children@, path.deep_view().skip(from as int))),
        forall|query: Seq<Seq<char>>|
            #[trigger] song_at(out.0@, query) == song_after_remove(
                song_at(children@, query),
                path.deep_view().skip(from as int),
                query,
            ),
    decreases path.len() - from,
{
    let ghost before = children@;
    let ghost target = path.deep_view().skip(from as int);
    assert(target[0] == path@[from as int]@);
    assert(target.drop_first() =~= path.deep_view().skip(from + 1));
    let ghost name = target[0];
    let found = find_child(&children, &path[from]);
    let last = from + 1 == path.len();
    let mut children = children;
    match found {
        None => {
            proof {
                assert forall|query: Seq<Seq<char>>| #[trigger]
                    song_at(before, query) == song_after_remove(
                        song_at(before, query),
                        target,
                        query,
                    ) by {
                    if target.is_prefix_of(query) {
                        assert(target =~= query.subrange(0, target.len() as int));
                        assert(query[0] == query.subrange(0, target.len() as int)[0]);
                    }
                }
            }
            (children, false)
        },
        Some(at) => {
            if last {
                children.remove(at);
                proof {
                    let after = children@;
                    assert(after == before.remove(at as int));
                    assert forall|j: int| 0 <= j < after.len() implies after[j].0@ != name by {
                        if j < at {
                            assert(after[j] == before[j]);
                        } else {
                            assert(after[j] == before[j + 1]);
                        }
                    }
                    assert(!has_child(after, name));
                    assert forall|query: Seq<Seq<char>>| #[trigger]
                        song_at(after, query) == song_after_remove(
                            song_at(before, query),
                            target,
                            query,
                        ) by {
                        if query.len() > 0 {
                            if query[0] == name {
                                lemma_same_head(target, query);
                                assert(target.drop_first() =~= Seq::<Seq<char>>::empty());
                                assert(target.drop_first().is_prefix_of(query.drop_first()));
                            } else {
                                lemma_other_head(target, query);
                                lemma_lookup_removed(before, at as int, query);
                            }
                        }
                    }
                    assert forall|i: int, j: int| 0 <= i < j < after.len() implies after[i].0@
                        != after[j].0@ by {
                        let bi = if i < at {
                            i
                        } else {
                            i + 1
                        };
                        let bj = if j < at {
                            j
                        } else {
                            j + 1
                        };
                        assert(after[i] == before[bi]);
                        assert(after[j] == before[bj]);
                    }
                    assert forall|i: int| 0 <= i < after.len() implies match #[trigger] after[i].1 {
                        CacheEntry::Directory { children: inner } => well_formed(inner),
                        CacheEntry::File { .. } => true,
                    } by {
                        let bi = if i < at {
                            i
                        } else {
                            i + 1
                        };
                        assert(after[i] == before[bi]);
                    }
                }
                (children, true)
            } else {
                let (held, child) = children.remove(at);
                match child {
                    CacheEntry::Directory { children: inner } => {
                        let ghost inner_before = inner@;
                        let (inner_after, removed) = remove_in(inner, path, from + 1);
                        children.insert(at, (held, CacheEntry::Directory { children: inner_after }));
                        proof {
                            let after = children@;
                            assert(after.len() == before.len());
                            assert forall|j: int| 0 <= j < before.len() && j != at implies after[j]
                                == before[j] by {}
                            assert(is_first_named(after, name, at as int));
                            lemma_position(after, name, at as int);
                            assert forall|query: Seq<Seq<char>>| #[trigger]
                                song_at(after, query) == song_after_remove(
                                    song_at(before, query),
                                    target,
                                    query,
                                ) by {
                                if query.len() > 0 {
                                    if query[0] == name {
                                        lemma_same_head(target, query);
                                        if query.len() > 1 {
                                            assert(song_at(after, query) == song_at(
                                                inner_after@,
                                                query.drop_first(),
                                            ));
                                            assert(song_at(before, query) == song_at(
                                                inner_before,
                                                query.drop_first(),
                                            ));
                                        } else {
                                            assert(query.drop_first().len() == 0);
                                            assert(target.drop_first().len() > 0);
                                        }
                                    } else {
                                        lemma_other_head(target, query);
                                        lemma_lookup_elsewhere(before, after, name, query);
                                    }
                                }
                            }
                        }
                        (children, removed)
                    },
                    CacheEntry::File { song: kept } => {
                        children.insert(at, (held, CacheEntry::File { song: kept }));
                        proof {
                            let after = children@;
                            assert(after =~= before);
                            assert forall|query: Seq<Seq<char>>| #[trigger]
                                song_at(after, query) == song_after_remove(
                                    song_at(before, query),
                                    target,
                                    query,
                                ) by {
                                if target.is_prefix_of(query) {
                                    assert(target =~= query.subrange(0, target.len() as int));
                                    assert(query[0] == query.subrange(0, target.len() as int)[0]);
                                }
                            }
                        }
                        (children, false)
                    },
                }
            }
        },
    }
}

impl CacheEntry {
    /// The song of a file entry; an error for a directory.
    pub fn as_file(&self) -> (song: Result<&Song, CacheError>)
        ensures
            match *self {
                CacheEntry::File { song: s } => song == Ok::<&Song, CacheError>(&s),
                CacheEntry::Directory { .. } => song == Err::<&Song, CacheError>(
                    CacheError::NotAFile,
                ),
            },
    {
        match self {
            CacheEntry::File { song } => Ok(song),
            CacheEntry::Directory { .. } => Err(CacheError::NotAFile),
        }
    }

    /// The children of a directory entry; an error for a file.
    pub fn as_directory(&self) -> (children: Result<&Vec<(String, CacheEntry)>, CacheError>)
        ensures
            match *self {
                CacheEntry::File { .. } => children == Err::<
                    &Vec<(String, CacheEntry)>,
                    CacheError,
                >(CacheError::NotADirectory),
                CacheEntry::Directory { children: c } => children == Ok::<
                    &Vec<(String, CacheEntry)>,
                    CacheError,
                >(&c),
            },
    {
        match self {
            CacheEntry::File { .. } => Err(CacheError::NotADirectory),
            CacheEntry::Directory { children } => Ok(children),
        }
    }

    /// Whether the entry is a file.
    pub fn is_file(&self) -> (file: bool)
        ensures
            file == (*self is File),
    {
        match self {
            CacheEntry::File { .. } => true,
            CacheEntry::Directory { .. } => false,
        }
    }
}

/// The cache: the children of the root, each a tree of its own.
#[derive(Debug)]
pub struct Cache {
    root: Vec<(String, CacheEntry)>,
}

impl Cache {
    /// In every directory of the cache each name is held once. This holds
    /// of every cache.
    #[verifier::type_invariant]
    pub closed spec fn wf(self) -> bool {
        well_formed(self.root)
    }

    /// The top level of the tree.
    pub closed spec fn top(&self) -> Seq<(String, CacheEntry)> {
        self.root@
    }

    /// The children of the root.
    pub closed spec fn top_entries(&self) -> Vec<(String, CacheEntry)> {
        self.root
    }

    /// The tree of a cache is well formed.
    pub proof fn lemma_well_formed(&self)
        requires
            self.wf(),
        ensures
            well_formed(self.top_entries()),
            self.top_entries()@ == self.top(),
    {
    }

    /// The children of the root.
    pub fn root(&self) -> (children: &Vec<(String, CacheEntry)>)
        ensures
            *children == self.top_entries(),
            children@ == self.top(),
            well_formed(*children),
    {
        proof {
            use_type_invariant(self);
        }
        &self.root
    }

    /// What the cache holds at `path`.
    pub open spec fn entry_at(&self, path: Seq<Seq<char>>) -> Result<Option<CacheEntry>, CacheError> {
        lookup(self.top(), path)
    }

    /// The song of the file at `path`, if the cache holds a file there.
    pub open spec fn song_at(&self, path: Seq<Seq<char>>) -> Option<SongModel> {
        song_at(self.top(), path)
    }

    /// The cache that holds nothing: its root has no children, a walk
    /// along any path finds no entry, and no song is listed.
    pub fn new() -> (cache: Cache)
        ensures
            cache.top() == Seq::<(String, CacheEntry)>::empty(),
            cache.top_entries()@ == cache.top(),
            forall|path: Seq<Seq<char>>|
                #[trigger] cache.entry_at(path) == if path.len() == 0 {
                    Err::<Option<CacheEntry>, CacheError>(CacheError::EmptyPath)
                } else {
                    Ok::<Option<CacheEntry>, CacheError>(None)
                },
            forall|path: Seq<Seq<char>>| cache.song_at(path) is None,
            forall|prefix: Seq<Seq<char>>|
                #[trigger] files_from(cache.top_entries(), 0, prefix) == Seq::<
                    (Seq<Seq<char>>, SongModel),
                >::empty(),
    {
        let cache = Cache { root: Vec::new() };
        assert(cache.top() =~= Seq::<(String, CacheEntry)>::empty());
        assert forall|path: Seq<Seq<char>>|
            #[trigger] cache.entry_at(path) == if path.len() == 0 {
                Err::<Option<CacheEntry>, CacheError>(CacheError::EmptyPath)
            } else {
                Ok::<Option<CacheEntry>, CacheError>(None)
            } by {
            if path.len() > 0 {
                assert(!has_child(cache.top(), path[0]));
            }
        }
        cache
    }

    /// The entry at `path`: walks the tree one component at a time.
    ///
    /// Gives nothing where a component names no child, and an error where
    /// the path is empty or goes on below a file.
    pub fn get(&self, path: &Vec<String>) -> (entry: Result<Option<&CacheEntry>, CacheError>)
        ensures
            match entry {
                Ok(Some(e)) => self.entry_at(path.deep_view()) == Ok::<
                    Option<CacheEntry>,
                    CacheError,
                >(Some(*e)),
                Ok(None) => self.entry_at(path.deep_view()) == Ok::<
                    Option<CacheEntry>,
                    CacheError,
                >(None),
                Err(e) => self.entry_at(path.deep_view()) == Err::<
                    Option<CacheEntry>,
                    CacheError,
                >(e),
            },
    {
        if path.len() == 0 {
            return Err(CacheError::EmptyPath);
        }
        let ghost full = path.deep_view();
        let mut level: &Vec<(String, CacheEntry)> = &self.root;
        let mut i: usize = 0;
        assert(full.skip(0) =~= full);
        loop
            invariant
                i < path.len(),
                full == path.deep_view(),
                lookup(self.top(), full) == lookup(level@, full.skip(i as int)),
            decreases path.len() - i,
        {
            let ghost rest = full.skip(i as int);
            assert(rest[0] == path@[i as int]@);
            match find_child(level, &path[i]) {
                None => {
                    return Ok(None);
                },
                Some(at) => {
                    let child = &level[at].1;
                    if i + 1 == path.len() {
                        return Ok(Some(child));
                    }
                    match child {
                        CacheEntry::File { .. } => {
                            return Err(CacheError::NotADirectory);
                        },
                        CacheEntry::Directory { children } => {
                            assert(rest.drop_first() =~= full.skip(i + 1));
                            level = children;
                            i += 1;
                        },
                    }
                },
            }
        }
    }

    /// The song of the file at `path`: nothing where no entry is there, and
    /// an error where the walk fails or the entry is a directory.
    pub fn song(&self, path: &Vec<String>) -> (song: Result<Option<&Song>, CacheError>)
        ensures
            match song {
                Ok(Some(s)) => self.song_at(path.deep_view()) == Some(s@),
                Ok(None) => self.entry_at(path.deep_view()) == Ok::<
                    Option<CacheEntry>,
                    CacheError,
                >(None),
                Err(e) => self.entry_at(path.deep_view()) == Err::<Option<CacheEntry>, CacheError>(e)
                    || (e == CacheError::NotAFile && holds_directory(
                    self.entry_at(path.deep_view()),
                )),
            },
            song matches Ok(Some(_)) <==> self.song_at(path.deep_view()) is Some,
    {
        match self.get(path) {
            Ok(Some(entry)) => match entry.as_file() {
                Ok(song) => Ok(Some(song)),
                Err(e) => Err(e),
            },
            Ok(None) => Ok(None),
            Err(e) => Err(e),
        }
    }

    /// Puts a file with `song` at `path`, making the directories on the way
    /// that are not there yet. A file that was at the path, and a directory
    /// with all below it, gives way. Refuses an empty path, and a path that
    /// leads through a file; the cache is then as it was.
    pub fn insert_file(&mut self, path: &Vec<String>, song: Song) -> (done: Result<(), CacheError>)
        ensures
            match done {
                Ok(_) => insertable(old(self).top(), path.deep_view()) && forall|
                    query: Seq<Seq<char>>,
                | #[trigger]
                    final(self).song_at(query) == song_after_insert(
                        old(self).song_at(query),
                        path.deep_view(),
                        song@,
                        query,
                    ),
                Err(e) => !insertable(old(self).top(), path.deep_view()) && final(self).top()
                    == old(self).top() && e == if path.len() == 0 {
                    CacheError::EmptyPath
                } else {
                    CacheError::NotADirectory
                },
            },
    {
        if path.len() == 0 {
            return Err(CacheError::EmptyPath);
        }
        if !check_insertable(&self.root, path) {
            return Err(CacheError::NotADirectory);
        }
        proof {
            use_type_invariant(&*self);
        }
        assert(path.deep_view().skip(0) =~= path.deep_view());
        let mut root: Vec<(String, CacheEntry)> = Vec::new();
        std::mem::swap(&mut self.root, &mut root);
        self.root = insert_in(root, path, 0, song);
        Ok(())
    }
    /// The files of the cache, each with its song and the components of its
    /// path, in the order a walk of the tree meets them.
    pub fn songs(&self) -> (list: Vec<(Song, Vec<String>)>)
        ensures
            listing(list@) == files_from(self.top_entries(), 0, Seq::empty()),
    {
        let prefix: Vec<String> = Vec::new();
        assert(prefix.deep_view() =~= Seq::<Seq<char>>::empty());
        files_in(&self.root, &prefix)
    }

    /// Takes away what is at `path`, a file or a directory with all below
    /// it, and says whether anything was there. At the empty path nothing
    /// is, and nothing changes.
    pub fn remove(&mut self, path: &Vec<String>) -> (removed: bool)
        ensures
            removed == holds_entry(old(self).entry_at(path.deep_view())),
            path.len() > 0 ==> forall|query: Seq<Seq<char>>| #[trigger]
                final(self).song_at(query) == song_after_remove(
                    old(self).song_at(query),
                    path.deep_view(),
                    query,
                ),
            path.len() == 0 ==> final(self).top() == old(self).top(),
    {
        if path.len() == 0 {
            return false;
        }
        proof {
            use_type_invariant(&*self);
        }
        assert(path.deep_view().skip(0) =~= path.deep_view());
        let mut root: Vec<(String, CacheEntry)> = Vec::new();
        std::mem::swap(&mut self.root, &mut root);
        let (kept, removed) = remove_in(root, path, 0);
        self.root = kept;
        removed
    }
}

/// Whether a lookup found an entry that stands for what is on disk.
pub open spec fn found_valid(found: Result<Option<CacheEntry>, CacheError>, on_disk: OnDisk) -> bool {
    found matches Ok(Some(e)) && stands_for(e, on_disk)
}

impl Cache {
    /// Holds the entry at `path` against what is on disk there, and takes
    /// it away, with all below it, if it no longer stands for that. Says
    /// whether an entry is there afterwards.
    pub fn validate(&mut self, path: &Vec<String>, on_disk: OnDisk) -> (kept: bool)
        ensures
            kept == found_valid(old(self).entry_at(path.deep_view()), on_disk),
            kept || !holds_entry(old(self).entry_at(path.deep_view()))
                ==> final(self).top() == old(self).top(),
            !kept && holds_entry(old(self).entry_at(path.deep_view())) ==> forall|
                query: Seq<Seq<char>>,
            | #[trigger]
                final(self).song_at(query) == song_after_remove(
                    old(self).song_at(query),
                    path.deep_view(),
                    query,
                ),
    {
        let valid = match self.get(path) {
            Ok(Some(entry)) => Some(still_valid(entry, on_disk)),
            _ => None,
        };
        match valid {
            Some(true) => true,
            Some(false) => {
                self.remove(path);
                false
            },
            None => false,
        }
    }
}

/// Whether an entry still stands for what is on disk at its path.
pub fn still_valid(entry: &CacheEntry, on_disk: OnDisk) -> (valid: bool)
    ensures
        valid == stands_for(*entry, on_disk),
{
    match entry {
        CacheEntry::File { .. } => match on_disk {
            OnDisk::File => true,
            _ => false,
        },
        CacheEntry::Directory { .. } => match on_disk {
            OnDisk::Directory => true,
            _ => false,
        },
    }
}

} // verus!
