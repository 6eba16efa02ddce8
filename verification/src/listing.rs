//! Directory listings of the music library, as far as the core reads them.

use vstd::prelude::*;
use crate::release::ReleaseId;

verus! {

/// One record of a recursive directory listing.
#[derive(Debug, Clone, PartialEq, Eq)]
pub enum Entry {
    /// A track, with the release identifier that its tags name, if any.
    Track { file: String, release: Option<String> },
    /// A directory, by its path below the library root.
    Directory { path: String },
    /// A stored playlist, by its path below the library root.
    Playlist { path: String },
}

impl Entry {
    /// The text of the release identifier that the record carries: that of
    /// a track whose tags name one that is not empty.
    pub open spec fn release_text(self) -> Option<Seq<char>> {
        match self {
            Entry::Track { file, release } => match release {
                Some(text) => if text@.len() > 0 {
                    Some(text@)
                } else {
                    None
                },
                None => None,
            },
            Entry::Directory { path } => None,
            Entry::Playlist { path } => None,
        }
    }

    /// The path of the directory that the record stands for.
    pub open spec fn directory_path(self) -> Option<Seq<char>> {
        match self {
            Entry::Directory { path } => Some(path@),
            _ => None,
        }
    }

    pub fn release<'a>(&'a self) -> (text: Option<&'a str>)
        ensures
            match text {
                Some(t) => self.release_text() == Some(t@),
                None => self.release_text() is None,
            },
    {
        match self {
            Entry::Track { file, release } => match release {
                Some(text) => if text.as_str().is_empty() {
                    None
                } else {
                    Some(text.as_str())
                },
                None => None,
            },
            Entry::Directory { path } => None,
            Entry::Playlist { path } => None,
        }
    }

    pub fn directory<'a>(&'a self) -> (path: Option<&'a str>)
        ensures
            match path {
                Some(p) => self.directory_path() == Some(p@),
                None => self.directory_path() is None,
            },
    {
        match self {
            Entry::Directory { path } => Some(path.as_str()),
            _ => None,
        }
    }
}

/// The release identifier text of the first record, in listing order, that
/// carries one.
pub open spec fn first_release_text(entries: Seq<Entry>) -> Option<Seq<char>>
    decreases entries.len(),
{
    if entries.len() == 0 {
        None
    } else if entries[0].release_text() is Some {
        entries[0].release_text()
    } else {
        first_release_text(entries.drop_first())
    }
}

/// The release of a listing: what the first identifier text in it stands
/// for. A text that is no valid identifier counts as none, and the records
/// after it are not looked at.
pub open spec fn release_of(entries: Seq<Entry>) -> Option<ReleaseId> {
    match first_release_text(entries) {
        Some(text) => ReleaseId::parsed(text),
        None => None,
    }
}

/// Finds the first record that carries a release identifier text.
pub fn first_release<'a>(listing: &'a Vec<Entry>) -> (text: Option<&'a str>)
    ensures
        match text {
            Some(t) => first_release_text(listing@) == Some(t@),
            None => first_release_text(listing@) is None,
        },
{
    let mut i: usize = 0;
    proof {
        assert(listing@.skip(0) =~= listing@);
    }
    while i < listing.len()
        invariant
            i <= listing@.len(),
            first_release_text(listing@) == first_release_text(listing@.skip(i as int)),
        decreases listing@.len() - i,
    {
        let found = listing[i].release();
        proof {
            let rest = listing@.skip(i as int);
            assert(rest[0] == listing@[i as int]);
            assert(rest.drop_first() =~= listing@.skip(i + 1));
        }
        if found.is_some() {
            return found;
        }
        i = i + 1;
    }
    None
}

/// The first text wins: it is carried by a record before which no record
/// carries one, and a listing has none only if no record carries one.
pub proof fn lemma_first_release_text(entries: Seq<Entry>)
    ensures
        match first_release_text(entries) {
            Some(text) => exists|i: int|
                0 <= i < entries.len() && (#[trigger] entries[i]).release_text() == Some(text)
                    && forall|j: int| 0 <= j < i ==> (#[trigger] entries[j]).release_text() is None,
            None => forall|j: int|
                0 <= j < entries.len() ==> (#[trigger] entries[j]).release_text() is None,
        },
    decreases entries.len(),
{
    if entries.len() == 0 {
    } else if entries[0].release_text() is Some {
        assert(entries[0].release_text() == first_release_text(entries));
    } else {
        let rest = entries.drop_first();
        lemma_first_release_text(rest);
        match first_release_text(rest) {
            Some(text) => {
                let i = choose|i: int|
                    0 <= i < rest.len() && (#[trigger] rest[i]).release_text() == Some(text)
                        && forall|j: int|
                        0 <= j < i ==> (#[trigger] rest[j]).release_text() is None;
                assert(entries[i + 1] == rest[i]);
                assert forall|j: int| 0 <= j < i + 1 implies (#[trigger] entries[j]).release_text()
                     is None by {
                    if j > 0 {
                        assert(entries[j] == rest[j - 1]);
                    }
                }
            },
            None => {
                assert forall|j: int| 0 <= j < entries.len() implies (
                #[trigger] entries[j]).release_text() is None by {
                    if j > 0 {
                        assert(entries[j] == rest[j - 1]);
                    }
                }
            },
        }
    }
}

} // verus!
