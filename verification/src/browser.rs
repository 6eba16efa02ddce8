//! Browsing the directories of the music library.

use vstd::prelude::*;
use crate::listing::Entry;

verus! {

/// The kinds of record that a listing can be narrowed to.
#[derive(Debug, Copy, Clone, Eq, PartialEq, Structural)]
pub enum LsFilter {
    File,
    Dir,
    Playlist,
    /// Every kind of record.
    All,
}

/// A request to list what is below a path.
#[derive(Debug, Clone, Eq, PartialEq)]
pub struct DatabaseLs {
    pub path: String,
    pub filter: LsFilter,
}

/// A path, as the one argument of a request.
#[derive(Debug, Clone, Eq, PartialEq)]
pub struct Path {
    pub path: String,
}

/// The directories of the library, each with a slash in front.
#[derive(Debug, Clone, Eq, PartialEq)]
pub struct DatabaseLsRes {
    pub dirs: Vec<String>,
}

/// The paths of the directories among the records, in the order of the
/// records, each with a slash in front.
pub open spec fn directories_of(entries: Seq<Entry>) -> Seq<Seq<char>>
    decreases entries.len(),
{
    if entries.len() == 0 {
        Seq::empty()
    } else {
        let front = directories_of(entries.drop_last());
        match entries.last().directory_path() {
            Some(path) => front.push(seq!['/'] + path),
            None => front,
        }
    }
}

impl DatabaseLsRes {
    /// The directories that a listing of the whole library names.
    pub fn from_listing(listing: &Vec<Entry>) -> (res: DatabaseLsRes)
        ensures
            res.dirs.deep_view() == directories_of(listing@),
    {
        let mut dirs: Vec<String> = Vec::new();
        let mut i: usize = 0;
        proof {
            assert(dirs.deep_view() =~= Seq::<Seq<char>>::empty());
        }
        while i < listing.len()
            invariant
                i <= listing@.len(),
                dirs.deep_view() == directories_of(listing@.take(i as int)),
            decreases listing@.len() - i,
        {
            proof {
                assert(listing@.take(i + 1).drop_last() =~= listing@.take(i as int));
                assert(listing@.take(i + 1).last() == listing@[i as int]);
            }
            if let Some(path) = listing[i].directory() {
                let mut dir = String::from_str("/");
                dir.append(path);
                proof {
                    reveal_strlit("/");
                    assert(dir@ =~= seq!['/'] + path@);
                }
                let ghost before = dirs.deep_view();
                dirs.push(dir);
                proof {
                    assert(dirs.deep_view() =~= before.push(dir@));
                }
            }
            i = i + 1;
        }
        proof {
            assert(listing@.take(i as int) =~= listing@);
        }
        DatabaseLsRes { dirs }
    }
}

/// What a directory is called inside the folder `path`: what follows
/// `path` in the directory's own path, if the directory lies right in
/// that folder, that is if nothing but a name without a slash follows.
pub open spec fn child_name(path: Seq<char>, dir: Seq<char>) -> Option<Seq<char>> {
    if path.len() <= dir.len() && dir.take(path.len() as int) == path && !dir.skip(
        path.len() as int,
    ).contains('/') {
        Some(dir.skip(path.len() as int))
    } else {
        None
    }
}

/// The names of the directories that lie right in the folder `path`, in
/// the order of `dirs`.
pub open spec fn children_of(path: Seq<char>, dirs: Seq<String>) -> Seq<Seq<char>>
    decreases dirs.len(),
{
    if dirs.len() == 0 {
        Seq::empty()
    } else {
        let front = children_of(path, dirs.drop_last());
        match child_name(path, dirs.last()@) {
            Some(name) => front.push(name),
            None => front,
        }
    }
}

/// The name of `dir` inside the folder `path`, if it lies right in it.
pub fn dir_in_path<'a>(path: &str, dir: &'a str) -> (name: Option<&'a str>)
    ensures
        match name {
            Some(n) => child_name(path@, dir@) == Some(n@),
            None => child_name(path@, dir@) is None,
        },
{
    let n = path.unicode_len();
    let m = dir.unicode_len();
    if m < n {
        return None;
    }
    let mut k: usize = 0;
    while k < n
        invariant
            k <= n <= m,
            n == path@.len(),
            m == dir@.len(),
            forall|j: int| 0 <= j < k ==> dir@[j] == path@[j],
        decreases n - k,
    {
        if dir.get_char(k) != path.get_char(k) {
            proof {
                assert(dir@.take(n as int)[k as int] != path@[k as int]);
            }
            return None;
        }
        k = k + 1;
    }
    proof {
        assert(dir@.take(n as int) =~= path@);
    }
    let mut k: usize = n;
    while k < m
        invariant
            n <= k <= m,
            n == path@.len(),
            m == dir@.len(),
            forall|j: int| n <= j < k ==> dir@[j] != '/',
        decreases m - k,
    {
        if dir.get_char(k) == '/' {
            proof {
                assert(dir@.skip(n as int)[k - n] == '/');
            }
            return None;
        }
        k = k + 1;
    }
    proof {
        let rest = dir@.skip(n as int);
        assert forall|j: int| 0 <= j < rest.len() implies rest[j] != '/' by {
            assert(rest[j] == dir@[n + j]);
        }
        assert(rest =~= dir@.subrange(n as int, m as int));
    }
    Some(dir.substring_char(n, m))
}

/// The names of the directories that lie right in the folder `path`.
/// `path` ends with a slash, as every directory in `dirs` starts with one.
pub fn dirs_in_path(path: &str, dirs: &[String]) -> (names: Vec<String>)
    ensures
        names.deep_view() == children_of(path@, dirs@),
{
    let mut names: Vec<String> = Vec::new();
    let mut i: usize = 0;
    proof {
        assert(names.deep_view() =~= Seq::<Seq<char>>::empty());
    }
    while i < dirs.len()
        invariant
            i <= dirs@.len(),
            names.deep_view() == children_of(path@, dirs@.take(i as int)),
        decreases dirs@.len() - i,
    {
        proof {
            assert(dirs@.take(i + 1).drop_last() =~= dirs@.take(i as int));
            assert(dirs@.take(i + 1).last() == dirs@[i as int]);
        }
        if let Some(name) = dir_in_path(path, dirs[i].as_str()) {
            let owned = String::from_str(name);
            let ghost before = names.deep_view();
            names.push(owned);
            proof {
                assert(names.deep_view() =~= before.push(owned@));
            }
        }
        i = i + 1;
    }
    proof {
        assert(dirs@.take(i as int) =~= dirs@);
    }
    names
}

/// Every name that is listed for a folder is free of slashes, and put
/// after the folder's path it is the path of a directory in `dirs`.
pub proof fn lemma_children_are_names(path: Seq<char>, dirs: Seq<String>, k: int)
    requires
        0 <= k < children_of(path, dirs).len(),
    ensures
        !children_of(path, dirs)[k].contains('/'),
        exists|i: int| 0 <= i < dirs.len() && (#[trigger] dirs[i])@ == path + children_of(path, dirs)[k],
    decreases dirs.len(),
{
    if dirs.len() > 0 {
        let front = children_of(path, dirs.drop_last());
        if k < front.len() {
            lemma_children_are_names(path, dirs.drop_last(), k);
            let i = choose|i: int|
                0 <= i < dirs.drop_last().len() && (#[trigger] dirs.drop_last()[i])@ == path
                    + front[k];
            assert(dirs[i] == dirs.drop_last()[i]);
        } else {
            let dir = dirs.last()@;
            assert(dir =~= dir.take(path.len() as int) + dir.skip(path.len() as int));
            assert(dirs[dirs.len() - 1]@ == path + children_of(path, dirs)[k]);
        }
    }
}

} // verus!
