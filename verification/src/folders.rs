//! The folder index: which artwork state each library folder is in.

use vstd::prelude::*;
use crate::caa::CaaState;

verus! {

/// A path without the slashes it starts with.
pub open spec fn strip_slashes(path: Seq<char>) -> Seq<char>
    decreases path.len(),
{
    if path.len() > 0 && path[0] == '/' {
        strip_slashes(path.drop_first())
    } else {
        path
    }
}

/// The key under which a folder is filed: its path relative to the library
/// root, so that `/a/b` and `a/b` name the same folder.
pub fn folder_key<'a>(path: &'a str) -> (key: &'a str)
    ensures
        key@ == strip_slashes(path@),
{
    let n = path.unicode_len();
    let mut i: usize = 0;
    proof {
        assert(path@.skip(0) =~= path@);
    }
    while i < n && path.get_char(i) == '/'
        invariant
            i <= n,
            n == path@.len(),
            strip_slashes(path@) == strip_slashes(path@.skip(i as int)),
        decreases n - i,
    {
        proof {
            let rest = path@.skip(i as int);
            assert(rest.len() > 0 && rest[0] == '/');
            assert(rest.drop_first() =~= path@.skip(i + 1));
        }
        i = i + 1;
    }
    proof {
        let rest = path@.skip(i as int);
        assert(rest =~= path@.subrange(i as int, n as int));
        if i < n {
            assert(rest[0] == path@[i as int]);
        }
    }
    path.substring_char(i, n)
}

/// A key never starts with a slash, keys are left as they are, and slashes
/// in front of a path do not change its key.
pub proof fn lemma_strip_slashes(path: Seq<char>)
    ensures
        strip_slashes(path).len() > 0 ==> strip_slashes(path)[0] != '/',
        strip_slashes(strip_slashes(path)) == strip_slashes(path),
        strip_slashes(seq!['/'] + path) == strip_slashes(path),
        strip_slashes(path).len() <= path.len(),
    decreases path.len(),
{
    if path.len() > 0 && path[0] == '/' {
        lemma_strip_slashes(path.drop_first());
    }
    assert((seq!['/'] + path).drop_first() =~= path);
}

/// What the index records for one folder.
#[derive(Debug, Copy, Clone, Eq, PartialEq, Structural)]
pub struct FolderMetadata {
    /// Cover art state of the folder.
    pub caa: CaaState,
}

impl Default for FolderMetadata {
    fn default() -> (meta: FolderMetadata)
        ensures
            meta.caa == CaaState::Unknown,
    {
        FolderMetadata { caa: CaaState::Unknown }
    }
}

/// The mapping that a list of entries stands for. Where a path occurs more
/// than once, its last entry counts.
pub open spec fn entries_map(entries: Seq<(String, FolderMetadata)>) -> Map<Seq<char>, CaaState>
    decreases entries.len(),
{
    if entries.len() == 0 {
        Map::empty()
    } else {
        entries_map(entries.drop_last()).insert(entries.last().0@, entries.last().1.caa)
    }
}

/// No path occurs in two entries.
pub open spec fn distinct_paths(entries: Seq<(String, FolderMetadata)>) -> bool {
    forall|i: int, j: int|
        0 <= i < j < entries.len() ==> (#[trigger] entries[i]).0@ != (#[trigger] entries[j]).0@
}

/// The state filed under a path: `Unknown` where nothing is filed.
pub open spec fn lookup(index: Map<Seq<char>, CaaState>, path: Seq<char>) -> CaaState {
    if index.contains_key(path) {
        index[path]
    } else {
        CaaState::Unknown
    }
}

proof fn lemma_entries_dom(entries: Seq<(String, FolderMetadata)>, key: Seq<char>)
    ensures
        entries_map(entries).contains_key(key) <==> exists|i: int|
            0 <= i < entries.len() && (#[trigger] entries[i]).0@ == key,
    decreases entries.len(),
{
    if entries.len() > 0 {
        let front = entries.drop_last();
        lemma_entries_dom(front, key);
        if entries_map(entries).contains_key(key) {
            if entries.last().0@ == key {
                assert(entries[entries.len() - 1].0@ == key);
            } else {
                let i = choose|i: int| 0 <= i < front.len() && (#[trigger] front[i]).0@ == key;
                assert(entries[i].0@ == key);
            }
        }
        if exists|i: int| 0 <= i < entries.len() && (#[trigger] entries[i]).0@ == key {
            let i = choose|i: int| 0 <= i < entries.len() && (#[trigger] entries[i]).0@ == key;
            if i < front.len() {
                assert(front[i].0@ == key);
            }
        }
    }
}

proof fn lemma_entries_at(entries: Seq<(String, FolderMetadata)>, i: int)
    requires
        distinct_paths(entries),
        0 <= i < entries.len(),
    ensures
        entries_map(entries).contains_key(entries[i].0@),
        entries_map(entries)[entries[i].0@] == entries[i].1.caa,
    decreases entries.len(),
{
    let front = entries.drop_last();
    if i < entries.len() - 1 {
        assert(forall|a: int| 0 <= a < front.len() ==> front[a] == entries[a]);
        lemma_entries_at(front, i);
        assert(entries[i].0@ != entries[entries.len() - 1].0@);
    }
}

proof fn lemma_entries_update(
    entries: Seq<(String, FolderMetadata)>,
    i: int,
    entry: (String, FolderMetadata),
)
    requires
        distinct_paths(entries),
        0 <= i < entries.len(),
        entry.0@ == entries[i].0@,
    ensures
        distinct_paths(entries.update(i, entry)),
        entries_map(entries.update(i, entry)) == entries_map(entries).insert(
            entry.0@,
            entry.1.caa,
        ),
    decreases entries.len(),
{
    let after = entries.update(i, entry);
    assert(distinct_paths(after)) by {
        assert forall|a: int, b: int| 0 <= a < b < after.len() implies (#[trigger] after[a]).0@
            != (#[trigger] after[b]).0@ by {
            assert(entries[a].0@ != entries[b].0@);
        }
    }
    let front = entries.drop_last();
    if i == entries.len() - 1 {
        assert(after.drop_last() =~= front);
        assert(entries_map(after) =~= entries_map(entries).insert(entry.0@, entry.1.caa));
    } else {
        assert(forall|a: int| 0 <= a < front.len() ==> front[a] == entries[a]);
        lemma_entries_update(front, i, entry);
        assert(after.drop_last() =~= front.update(i, entry));
        assert(after.last() == entries.last());
        assert(entries[i].0@ != entries[entries.len() - 1].0@);
        assert(entries_map(after) =~= entries_map(entries).insert(entry.0@, entry.1.caa));
    }
}

proof fn lemma_entries_remove(entries: Seq<(String, FolderMetadata)>, i: int)
    requires
        distinct_paths(entries),
        0 <= i < entries.len(),
    ensures
        distinct_paths(entries.remove(i)),
        entries_map(entries.remove(i)) == entries_map(entries).remove(entries[i].0@),
    decreases entries.len(),
{
    let after = entries.remove(i);
    assert(distinct_paths(after)) by {
        assert forall|a: int, b: int| 0 <= a < b < after.len() implies (#[trigger] after[a]).0@
            != (#[trigger] after[b]).0@ by {
            let a0 = if a < i { a } else { a + 1 };
            let b0 = if b < i { b } else { b + 1 };
            assert(after[a] == entries[a0]);
            assert(after[b] == entries[b0]);
            assert(entries[a0].0@ != entries[b0].0@);
        }
    }
    let front = entries.drop_last();
    let key = entries[i].0@;
    if i == entries.len() - 1 {
        assert(after =~= front);
        lemma_entries_dom(front, key);
        if entries_map(front).contains_key(key) {
            let a = choose|a: int| 0 <= a < front.len() && (#[trigger] front[a]).0@ == key;
            assert(entries[a].0@ != entries[i].0@);
        }
        assert(entries_map(after) =~= entries_map(entries).remove(key));
    } else {
        assert(forall|a: int| 0 <= a < front.len() ==> front[a] == entries[a]);
        lemma_entries_remove(front, i);
        assert(after.drop_last() =~= front.remove(i));
        assert(after.last() == entries.last());
        assert(entries[i].0@ != entries[entries.len() - 1].0@);
        assert(entries_map(after) =~= entries_map(entries).remove(key));
    }
}

/// The persisted index of the library's folders.
pub struct FolderInfoCache {
    inner: Vec<(String, FolderMetadata)>,
}

impl View for FolderInfoCache {
    type V = Map<Seq<char>, CaaState>;

    closed spec fn view(&self) -> Map<Seq<char>, CaaState> {
        entries_map(self.inner@)
    }
}

impl FolderInfoCache {
    #[verifier::type_invariant]
    spec fn well_formed(self) -> bool {
        distinct_paths(self.inner@)
    }

    /// An index in which every folder is `Unknown`.
    pub fn new() -> (cache: FolderInfoCache)
        ensures
            cache@ == Map::<Seq<char>, CaaState>::empty(),
    {
        FolderInfoCache { inner: Vec::new() }
    }

    fn position(&self, path: &str) -> (found: Option<usize>)
        ensures
            match found {
                Some(i) => i < self.inner@.len() && self.inner@[i as int].0@ == path@,
                None => forall|i: int|
                    0 <= i < self.inner@.len() ==> (#[trigger] self.inner@[i]).0@ != path@,
            },
    {
        let key = String::from_str(path);
        let mut i: usize = 0;
        while i < self.inner.len()
            invariant
                i <= self.inner@.len(),
                key@ == path@,
                forall|j: int| 0 <= j < i ==> (#[trigger] self.inner@[j]).0@ != path@,
            decreases self.inner@.len() - i,
        {
            if self.inner[i].0 == key {
                return Some(i);
            }
            i = i + 1;
        }
        None
    }

    /// The state filed under `path`, if one is filed.
    pub fn caa(&self, path: &str) -> (state: Option<&CaaState>)
        ensures
            match state {
                Some(s) => self@.contains_key(path@) && *s == self@[path@],
                None => !self@.contains_key(path@),
            },
    {
        proof {
            use_type_invariant(self);
            lemma_entries_dom(self.inner@, path@);
        }
        match self.position(path) {
            Some(i) => {
                proof {
                    lemma_entries_at(self.inner@, i as int);
                }
                Some(&self.inner[i].1.caa)
            },
            None => None,
        }
    }

    /// The state of the folder `path`: `Unknown` where nothing is filed.
    pub fn get(&self, path: &str) -> (state: CaaState)
        ensures
            state == lookup(self@, path@),
    {
        match self.caa(path) {
            Some(state) => *state,
            None => CaaState::Unknown,
        }
    }

    /// Files `caa` under `path`, in place of what was filed there.
    pub fn update_caa(&mut self, path: &str, caa: CaaState)
        ensures
            final(self)@ == old(self)@.insert(path@, caa),
    {
        proof {
            use_type_invariant(&*self);
        }
        let found = self.position(path);
        let entry = (String::from_str(path), FolderMetadata { caa });
        let mut entries: Vec<(String, FolderMetadata)> = Vec::new();
        std::mem::swap(&mut entries, &mut self.inner);
        match found {
            Some(i) => {
                proof {
                    lemma_entries_update(entries@, i as int, entry);
                }
                entries.set(i, entry);
            },
            None => {
                proof {
                    let after = entries@.push(entry);
                    assert(after.drop_last() =~= entries@);
                    assert forall|a: int, b: int| 0 <= a < b < after.len() implies (
                    #[trigger] after[a]).0@ != (#[trigger] after[b]).0@ by {
                        assert(after[a] == entries@[a]);
                    }
                }
                entries.push(entry);
            },
        }
        self.inner = entries;
    }

    /// Forgets what is filed under `path`: the folder is `Unknown` again.
    pub fn invalidate(&mut self, path: &str)
        ensures
            final(self)@ == old(self)@.remove(path@),
    {
        proof {
            use_type_invariant(&*self);
            lemma_entries_dom(self.inner@, path@);
        }
        let found = self.position(path);
        let mut entries: Vec<(String, FolderMetadata)> = Vec::new();
        std::mem::swap(&mut entries, &mut self.inner);
        match found {
            Some(i) => {
                proof {
                    lemma_entries_remove(entries@, i as int);
                }
                entries.remove(i);
            },
            None => {
                proof {
                    assert(entries_map(entries@).remove(path@) =~= entries_map(entries@));
                }
            },
        }
        self.inner = entries;
    }

    /// How many folders have a state filed.
    pub fn len(&self) -> (n: usize)
        ensures
            n == self@.dom().len(),
            self@.dom().finite(),
    {
        proof {
            use_type_invariant(self);
            lemma_entries_len(self.inner@);
        }
        self.inner.len()
    }

    /// The index as a list of entries, one for each folder filed, for a
    /// caller that writes it out.
    pub fn entries(&self) -> (entries: Vec<(String, FolderMetadata)>)
        ensures
            distinct_paths(entries@),
            entries_map(entries@) == self@,
    {
        proof {
            use_type_invariant(self);
        }
        let mut entries: Vec<(String, FolderMetadata)> = Vec::new();
        let mut i: usize = 0;
        while i < self.inner.len()
            invariant
                i <= self.inner@.len(),
                entries@ == self.inner@.take(i as int),
            decreases self.inner@.len() - i,
        {
            let entry = (self.inner[i].0.clone(), self.inner[i].1);
            entries.push(entry);
            proof {
                assert(entries@ =~= self.inner@.take(i + 1));
            }
            i = i + 1;
        }
        proof {
            assert(entries@ =~= self.inner@);
        }
        entries
    }

    /// The index that a list of entries stands for; of two entries for one
    /// path the later one counts.
    pub fn from_entries(entries: &Vec<(String, FolderMetadata)>) -> (cache: FolderInfoCache)
        ensures
            cache@ == entries_map(entries@),
    {
        let mut cache = FolderInfoCache::new();
        let mut i: usize = 0;
        while i < entries.len()
            invariant
                i <= entries@.len(),
                cache@ == entries_map(entries@.take(i as int)),
            decreases entries@.len() - i,
        {
            proof {
                assert(entries@.take(i + 1).drop_last() =~= entries@.take(i as int));
            }
            cache.update_caa(entries[i].0.as_str(), entries[i].1.caa);
            i = i + 1;
        }
        proof {
            assert(entries@.take(i as int) =~= entries@);
        }
        cache
    }
}

proof fn lemma_entries_len(entries: Seq<(String, FolderMetadata)>)
    requires
        distinct_paths(entries),
    ensures
        entries_map(entries).dom().finite(),
        entries_map(entries).dom().len() == entries.len(),
    decreases entries.len(),
{
    if entries.len() > 0 {
        let front = entries.drop_last();
        assert(forall|a: int| 0 <= a < front.len() ==> front[a] == entries[a]);
        lemma_entries_len(front);
        lemma_entries_dom(front, entries.last().0@);
        if entries_map(front).contains_key(entries.last().0@) {
            let a = choose|a: int|
                0 <= a < front.len() && (#[trigger] front[a]).0@ == entries.last().0@;
            assert(entries[a].0@ != entries[entries.len() - 1].0@);
        }
        assert(entries_map(entries).dom() =~= entries_map(front).dom().insert(entries.last().0@));
    }
}

/// Reading after writing gives what was written; writing twice is writing
/// once; a write leaves every other folder alone; an invalidated folder is
/// `Unknown`.
pub proof fn lemma_index_laws(
    index: Map<Seq<char>, CaaState>,
    path: Seq<char>,
    other: Seq<char>,
    state: CaaState,
)
    ensures
        lookup(index.insert(path, state), path) == state,
        index.insert(path, state).insert(path, state) == index.insert(path, state),
        other != path ==> lookup(index.insert(path, state), other) == lookup(index, other),
        lookup(index.remove(path), path) == CaaState::Unknown,
        other != path ==> lookup(index.remove(path), other) == lookup(index, other),
        lookup(index, path) == state && index.contains_key(path) ==> index.insert(path, state)
            == index,
{
    assert(index.insert(path, state).insert(path, state) =~= index.insert(path, state));
    if lookup(index, path) == state && index.contains_key(path) {
        assert(index.insert(path, state) =~= index);
    }
}

/// An index that is written out as its entries and read back is the same
/// index.
pub proof fn lemma_entries_round_trip(
    cache: FolderInfoCache,
    entries: Seq<(String, FolderMetadata)>,
    again: FolderInfoCache,
)
    requires
        entries_map(entries) == cache@,
        again@ == entries_map(entries),
    ensures
        again@ == cache@,
{
}

} // verus!
