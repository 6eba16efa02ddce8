//! The artwork state of a library folder.

use vstd::prelude::*;
use crate::release::ReleaseId;

verus! {

/// What is known about the cover art of one folder.
#[derive(Debug, Copy, Clone, Eq, PartialEq, Structural)]
pub enum CaaState {
    /// Nothing was attempted yet.
    Unknown,
    /// The folder was listed and no track in it names a release.
    NoMbid,
    /// A release is known; whether its artwork is on disk is not.
    MaybeArtwork(ReleaseId),
    /// The lookup service has no artwork for the release.
    NoArtwork(ReleaseId),
    /// The artwork of the release is in the blob cache.
    InCache(ReleaseId),
}

impl CaaState {
    /// A terminal state is left only by invalidation or by a requested
    /// verification.
    pub open spec fn is_terminal(self) -> bool {
        self is NoMbid || self is NoArtwork || self is InCache
    }

    /// The release the state carries, if it carries one.
    pub open spec fn release(self) -> Option<ReleaseId> {
        match self {
            CaaState::Unknown => None,
            CaaState::NoMbid => None,
            CaaState::MaybeArtwork(id) => Some(id),
            CaaState::NoArtwork(id) => Some(id),
            CaaState::InCache(id) => Some(id),
        }
    }

    /// The working state a resolution starts from: with `verify` set, a
    /// cached entry is demoted so that the blob is looked for again.
    pub open spec fn working(self, verify: bool) -> CaaState {
        match self {
            CaaState::InCache(id) => if verify {
                CaaState::MaybeArtwork(id)
            } else {
                self
            },
            _ => self,
        }
    }

    pub fn terminal(&self) -> (b: bool)
        ensures
            b == self.is_terminal(),
    {
        match self {
            CaaState::NoMbid => true,
            CaaState::NoArtwork(_) => true,
            CaaState::InCache(_) => true,
            _ => false,
        }
    }

    pub fn mbid(&self) -> (id: Option<ReleaseId>)
        ensures
            id == self.release(),
    {
        match self {
            CaaState::Unknown => None,
            CaaState::NoMbid => None,
            CaaState::MaybeArtwork(id) => Some(*id),
            CaaState::NoArtwork(id) => Some(*id),
            CaaState::InCache(id) => Some(*id),
        }
    }

    pub fn demote(self, verify: bool) -> (state: CaaState)
        ensures
            state == self.working(verify),
    {
        match self {
            CaaState::InCache(id) => if verify {
                CaaState::MaybeArtwork(id)
            } else {
                self
            },
            _ => self,
        }
    }
}

impl Default for CaaState {
    fn default() -> (state: CaaState)
        ensures
            state == CaaState::Unknown,
    {
        CaaState::Unknown
    }
}

/// A demotion changes neither the release a state carries nor any state
/// but a cached one, and without the flag it changes nothing.
pub proof fn lemma_working_keeps_release(state: CaaState, verify: bool)
    ensures
        state.working(verify).release() == state.release(),
        state.working(false) == state,
        !(state is InCache) ==> state.working(verify) == state,
        verify ==> !(state.working(verify) is InCache),
{
}

} // verus!
