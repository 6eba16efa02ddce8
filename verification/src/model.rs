//! A model of complete resolutions, and what holds of them.
//!
//! The machine in `artwork` takes one answer at a time. Here its
//! surroundings are modelled as far as they answer its requests, so that
//! whole resolutions, and resolutions that follow one another, can be
//! spoken of.

use vstd::prelude::*;
use crate::artwork::{filed, ArtworkMachine, Finding, Request, Stage};
use crate::caa::CaaState;
use crate::error::AppError;
use crate::folders::{lookup, strip_slashes};
use crate::release::ReleaseId;

verus! {

/// The surroundings of the resolution of one folder, where nothing fails.
pub struct World {
    /// The release that the listing of the folder yields.
    pub release: Option<ReleaseId>,
    /// The artwork that the blob cache holds.
    pub blobs: Map<ReleaseId, Vec<u8>>,
    /// The artwork that the lookup service has.
    pub remote: Map<ReleaseId, Vec<u8>>,
}

impl World {
    /// The answer of the surroundings to the request of a stage.
    pub open spec fn answer(self, stage: Stage) -> Finding {
        match stage {
            Stage::Listing => Finding::Release(self.release),
            Stage::Probing(id) => Finding::Blob(self.blobs.contains_key(id)),
            Stage::Fetching(id) => Finding::Artwork(
                if self.remote.contains_key(id) {
                    Some(self.remote[id])
                } else {
                    None
                },
            ),
            _ => Finding::Stored,
        }
    }

    /// The surroundings once the request of a stage is carried out: only
    /// storing changes them.
    pub open spec fn served(self, stage: Stage) -> World {
        match stage {
            Stage::Storing(id, bytes) => World {
                release: self.release,
                blobs: self.blobs.insert(id, bytes),
                remote: self.remote,
            },
            _ => self,
        }
    }
}

/// A resolution that was driven as far as it went.
pub struct Run {
    /// The stage reached.
    pub stage: Stage,
    /// The surroundings as the resolution left them.
    pub world: World,
    /// The requests that were carried out, in their order.
    pub requests: Seq<Request>,
}

/// Drives a resolution through at most `fuel` requests, each one answered
/// by the surroundings.
pub open spec fn drive(stage: Stage, world: World, fuel: nat) -> Run
    decreases fuel,
{
    if fuel == 0 || !stage.is_open() {
        Run { stage, world, requests: Seq::empty() }
    } else {
        let rest = drive(stage.after(world.answer(stage)), world.served(stage), (fuel - 1) as nat);
        Run { stage: rest.stage, world: rest.world, requests: seq![stage.request()] + rest.requests }
    }
}

/// What a complete resolution leaves behind.
pub struct Resolved {
    /// The folder index after the resolution.
    pub index: Map<Seq<char>, CaaState>,
    /// The run that the resolution took.
    pub run: Run,
}

/// The most requests that one resolution makes.
pub open spec fn max_requests() -> nat {
    4
}

/// The complete resolution of the folder `path`.
pub open spec fn resolve(
    index: Map<Seq<char>, CaaState>,
    world: World,
    path: Seq<char>,
    verify: bool,
) -> Resolved {
    let run = drive(ArtworkMachine::start(index, path, verify), world, max_requests());
    Resolved { index: filed(index, strip_slashes(path), run.stage), run }
}

/// The index names a cached release that the blob cache has lost.
pub open spec fn stale(index: Map<Seq<char>, CaaState>, world: World, path: Seq<char>) -> bool {
    match lookup(index, strip_slashes(path)) {
        CaaState::InCache(id) => !world.blobs.contains_key(id),
        _ => false,
    }
}

/// The same stage after a run of findings, one after the other.
pub open spec fn after_all(stage: Stage, findings: Seq<Finding>) -> Stage
    decreases findings.len(),
{
    if findings.len() == 0 {
        stage
    } else {
        after_all(stage.after(findings[0]), findings.drop_first())
    }
}

/// A terminal stage has no way out: whatever is found, it stays, it asks
/// for nothing but to be done, and the same holds of a resolution that was
/// given up.
pub proof fn lemma_terminal_stages_are_sinks(stage: Stage, finding: Finding)
    requires
        !stage.is_open(),
    ensures
        stage.after(finding) == stage,
        stage.settled() is Some || stage is Aborted,
        stage.settled() matches Some(state) ==> state.is_terminal() && stage.request()
            == Request::Done(state),
        !stage.request().is_network(),
{
}

/// No run of findings leads out of a terminal stage.
pub proof fn lemma_terminal_stages_stay(stage: Stage, findings: Seq<Finding>)
    requires
        !stage.is_open(),
    ensures
        after_all(stage, findings) == stage,
    decreases findings.len(),
{
    if findings.len() > 0 {
        lemma_terminal_stages_stay(stage, findings.drop_first());
    }
}

/// Each of the three terminal states is reached from `Unknown`, by the
/// findings named here.
pub proof fn lemma_terminal_stages_are_reachable(id: ReleaseId, bytes: Vec<u8>)
    ensures
        Stage::entry(CaaState::Unknown) == Stage::Listing,
        after_all(Stage::Listing, seq![Finding::Release(None)]) == Stage::NoMbid,
        after_all(Stage::Listing, seq![Finding::Release(Some(id)), Finding::Blob(true)])
            == Stage::InCache(id),
        after_all(
            Stage::Listing,
            seq![
                Finding::Release(Some(id)),
                Finding::Blob(false),
                Finding::Artwork(Some(bytes)),
                Finding::Stored,
            ],
        ) == Stage::InCache(id),
        after_all(
            Stage::Listing,
            seq![Finding::Release(Some(id)), Finding::Blob(false), Finding::Artwork(None)],
        ) == Stage::NoArtwork(id),
{
    reveal_with_fuel(after_all, 6);
    let to_none = seq![Finding::Release(None)];
    assert(to_none.drop_first() =~= Seq::<Finding>::empty());
    let hit = seq![Finding::Release(Some(id)), Finding::Blob(true)];
    assert(hit.drop_first() =~= seq![Finding::Blob(true)]);
    assert(hit.drop_first().drop_first() =~= Seq::<Finding>::empty());
    let fetched = seq![
        Finding::Release(Some(id)),
        Finding::Blob(false),
        Finding::Artwork(Some(bytes)),
        Finding::Stored,
    ];
    assert(fetched.drop_first() =~= seq![
        Finding::Blob(false),
        Finding::Artwork(Some(bytes)),
        Finding::Stored,
    ]);
    assert(fetched.drop_first().drop_first() =~= seq![
        Finding::Artwork(Some(bytes)),
        Finding::Stored,
    ]);
    assert(fetched.drop_first().drop_first().drop_first() =~= seq![Finding::Stored]);
    assert(fetched.drop_first().drop_first().drop_first().drop_first() =~= Seq::<
        Finding,
    >::empty());
    let missed = seq![Finding::Release(Some(id)), Finding::Blob(false), Finding::Artwork(None)];
    assert(missed.drop_first() =~= seq![Finding::Blob(false), Finding::Artwork(None)]);
    assert(missed.drop_first().drop_first() =~= seq![Finding::Artwork(None)]);
    assert(missed.drop_first().drop_first().drop_first() =~= Seq::<Finding>::empty());
}

/// Once a resolution has a release, it keeps that release until it ends:
/// a finding leaves the release as it is, or the resolution is given up.
pub proof fn lemma_release_is_kept(stage: Stage, finding: Finding)
    requires
        stage.state() matches Some(state) && state.release() is Some,
    ensures
        stage.after(finding) is Aborted || (stage.after(finding).state() matches Some(next)
            && next.release() == stage.state()->0.release()),
{
}

/// How many requests a stage is away from the end, at most.
pub open spec fn distance(stage: Stage) -> nat {
    match stage {
        Stage::Listing => 4,
        Stage::Probing(_) => 3,
        Stage::Fetching(_) => 2,
        Stage::Storing(_, _) => 1,
        _ => 0,
    }
}

/// Every answer brings an open resolution closer to its end. A finding
/// that is no answer ends the resolution if it is a failure, and leaves it
/// where it is if it is not.
pub proof fn lemma_answers_make_progress(stage: Stage, finding: Finding)
    requires
        stage.is_open(),
    ensures
        stage.answered_by(finding) ==> distance(stage.after(finding)) < distance(stage),
        !stage.answered_by(finding) ==> (finding matches Finding::Failure(error) ==> stage.after(
            finding,
        ) == Stage::Aborted(error)),
        !stage.answered_by(finding) && !(finding is Failure) ==> stage.after(finding) == stage,
{
}

/// A failure is never taken for the answer that there is no artwork, and
/// neither an open resolution nor one that a failure ended files anything.
pub proof fn lemma_failures_file_nothing(
    index: Map<Seq<char>, CaaState>,
    key: Seq<char>,
    stage: Stage,
    error: AppError,
)
    ensures
        !(stage.after(Finding::Failure(error)) is NoArtwork) || stage is NoArtwork,
        stage.is_open() ==> filed(index, key, stage.after(Finding::Failure(error))) == index,
        stage.is_open() ==> filed(index, key, stage) == index,
{
}

/// Where nothing fails, a resolution that may make as many requests as
/// its stage is away from the end comes to a terminal state. It changes
/// neither what the listing yields nor what the lookup service has, and it
/// takes nothing out of the blob cache. Where it made a request and ends
/// with cached artwork, the blob cache holds that artwork; where it made
/// none, it leaves everything as it was.
pub proof fn lemma_drive_settles(stage: Stage, world: World, fuel: nat)
    requires
        !(stage is Aborted),
        distance(stage) <= fuel,
    ensures
        drive(stage, world, fuel).stage.settled() is Some,
        drive(stage, world, fuel).requests.len() <= distance(stage),
        drive(stage, world, fuel).world.release == world.release,
        drive(stage, world, fuel).world.remote == world.remote,
        stage.is_open() ==> (drive(stage, world, fuel).stage matches Stage::InCache(id)
            ==> drive(stage, world, fuel).world.blobs.contains_key(id)),
        !stage.is_open() ==> drive(stage, world, fuel).world == world,
        forall|id: ReleaseId| #[trigger]
            world.blobs.contains_key(id) ==> drive(stage, world, fuel).world.blobs.contains_key(id),
    decreases fuel,
{
    if fuel > 0 && stage.is_open() {
        let next = stage.after(world.answer(stage));
        lemma_drive_settles(next, world.served(stage), (fuel - 1) as nat);
    }
}

/// A complete resolution ends in a terminal state, which is then what the
/// index says of the folder, and it takes at most four requests.
pub proof fn lemma_resolve_settles(
    index: Map<Seq<char>, CaaState>,
    world: World,
    path: Seq<char>,
    verify: bool,
)
    ensures
        resolve(index, world, path, verify).run.stage.settled() matches Some(state)
            && state.is_terminal() && lookup(
            resolve(index, world, path, verify).index,
            strip_slashes(path),
        ) == state,
        resolve(index, world, path, verify).run.requests.len() <= max_requests(),
{
    lemma_drive_settles(ArtworkMachine::start(index, path, verify), world, max_requests());
}

/// Resolving a folder a second time, with nothing changed outside, ends in
/// the same state as the first time, makes no call over the network, and
/// changes neither the index nor the blob cache. The one case left out is
/// a second resolution that verifies, after a first that did not, an entry
/// whose artwork the blob cache has lost.
pub proof fn lemma_resolve_is_idempotent(
    index: Map<Seq<char>, CaaState>,
    world: World,
    path: Seq<char>,
    first: bool,
    second: bool,
)
    requires
        !(second && !first && stale(index, world, path)),
    ensures
        ({
            let once = resolve(index, world, path, first);
            let twice = resolve(once.index, once.run.world, path, second);
            &&& twice.run.stage == once.run.stage
            &&& twice.index == once.index
            &&& twice.run.world == once.run.world
            &&& forall|i: int|
                0 <= i < twice.run.requests.len() ==> !(#[trigger] twice.run.requests[i]).is_network()
        }),
{
    let key = strip_slashes(path);
    let start = ArtworkMachine::start(index, path, first);
    lemma_drive_settles(start, world, max_requests());
    let once = resolve(index, world, path, first);
    let again = ArtworkMachine::start(once.index, path, second);
    reveal_with_fuel(drive, 3);
    let twice = resolve(once.index, once.run.world, path, second);
    assert(twice.index =~= once.index);
}

/// A folder that the index holds as cached, while the blob cache has lost
/// the artwork: a resolution that verifies asks the lookup service again
/// and ends with the artwork cached anew, or with the finding that there
/// is none; a resolution that does not verify returns the stale entry and
/// asks nobody.
pub proof fn lemma_verify_flag_rechecks(
    index: Map<Seq<char>, CaaState>,
    world: World,
    path: Seq<char>,
    id: ReleaseId,
)
    requires
        lookup(index, strip_slashes(path)) == CaaState::InCache(id),
        !world.blobs.contains_key(id),
    ensures
        resolve(index, world, path, false).run.stage == Stage::InCache(id),
        resolve(index, world, path, false).run.requests == Seq::<Request>::empty(),
        resolve(index, world, path, false).index == index,
        world.remote.contains_key(id) ==> {
            let verified = resolve(index, world, path, true);
            &&& verified.run.stage == Stage::InCache(id)
            &&& verified.run.requests == seq![
                Request::Probe(id),
                Request::Fetch(id),
                Request::Store(id),
            ]
            &&& verified.run.world.blobs == world.blobs.insert(id, world.remote[id])
            &&& lookup(verified.index, strip_slashes(path)) == CaaState::InCache(id)
        },
        !world.remote.contains_key(id) ==> {
            let verified = resolve(index, world, path, true);
            &&& verified.run.stage == Stage::NoArtwork(id)
            &&& verified.run.requests == seq![Request::Probe(id), Request::Fetch(id)]
            &&& verified.run.world == world
            &&& lookup(verified.index, strip_slashes(path)) == CaaState::NoArtwork(id)
        },
{
    reveal_with_fuel(drive, 5);
    let key = strip_slashes(path);
    assert(index.contains_key(key));
    assert(index.insert(key, CaaState::InCache(id)) =~= index);
    let verified = resolve(index, world, path, true);
    if world.remote.contains_key(id) {
        assert(verified.run.requests =~= seq![
            Request::Probe(id),
            Request::Fetch(id),
            Request::Store(id),
        ]);
    } else {
        assert(verified.run.requests =~= seq![Request::Probe(id), Request::Fetch(id)]);
    }
}

/// A folder of which nothing is known, whose listing names a release that
/// the blob cache lacks: the resolution lists, probes and fetches; it
/// stores what the lookup service has and ends with the artwork cached, or
/// ends with the finding that there is none. A folder whose listing names
/// no release ends as such after the listing alone.
pub proof fn lemma_first_resolution(
    index: Map<Seq<char>, CaaState>,
    world: World,
    path: Seq<char>,
    verify: bool,
)
    requires
        lookup(index, strip_slashes(path)) == CaaState::Unknown,
    ensures
        ({
            let done = resolve(index, world, path, verify);
            match world.release {
                None => {
                    &&& done.run.stage == Stage::NoMbid
                    &&& done.run.requests == seq![Request::List]
                    &&& done.run.world == world
                    &&& lookup(done.index, strip_slashes(path)) == CaaState::NoMbid
                },
                Some(id) => if world.blobs.contains_key(id) {
                    &&& done.run.stage == Stage::InCache(id)
                    &&& done.run.requests == seq![Request::List, Request::Probe(id)]
                    &&& done.run.world == world
                    &&& lookup(done.index, strip_slashes(path)) == CaaState::InCache(id)
                } else if world.remote.contains_key(id) {
                    &&& done.run.stage == Stage::InCache(id)
                    &&& done.run.requests == seq![
                        Request::List,
                        Request::Probe(id),
                        Request::Fetch(id),
                        Request::Store(id),
                    ]
                    &&& done.run.world.blobs == world.blobs.insert(id, world.remote[id])
                    &&& lookup(done.index, strip_slashes(path)) == CaaState::InCache(id)
                } else {
                    &&& done.run.stage == Stage::NoArtwork(id)
                    &&& done.run.requests == seq![
                        Request::List,
                        Request::Probe(id),
                        Request::Fetch(id),
                    ]
                    &&& done.run.world == world
                    &&& lookup(done.index, strip_slashes(path)) == CaaState::NoArtwork(id)
                },
            }
        }),
{
    reveal_with_fuel(drive, 5);
    let done = resolve(index, world, path, verify);
    match world.release {
        None => {
            assert(done.run.requests =~= seq![Request::List]);
        },
        Some(id) => {
            if world.blobs.contains_key(id) {
                assert(done.run.requests =~= seq![Request::List, Request::Probe(id)]);
            } else if world.remote.contains_key(id) {
                assert(done.run.requests =~= seq![
                    Request::List,
                    Request::Probe(id),
                    Request::Fetch(id),
                    Request::Store(id),
                ]);
            } else {
                assert(done.run.requests =~= seq![
                    Request::List,
                    Request::Probe(id),
                    Request::Fetch(id),
                ]);
            }
        },
    }
}

/// A resolution that starts at a terminal state files nothing new: the
/// index already says what it ends with.
pub proof fn lemma_settled_start_writes_nothing(
    index: Map<Seq<char>, CaaState>,
    path: Seq<char>,
    verify: bool,
)
    requires
        !ArtworkMachine::start(index, path, verify).is_open(),
    ensures
        filed(index, strip_slashes(path), ArtworkMachine::start(index, path, verify)) == index,
        ArtworkMachine::start(index, path, verify).settled() == Some(
            lookup(index, strip_slashes(path)),
        ),
{
    let key = strip_slashes(path);
    assert(filed(index, key, ArtworkMachine::start(index, path, verify)) =~= index);
}

/// Slashes in front of a path make no difference to its resolution.
pub proof fn lemma_leading_slash_is_ignored(
    index: Map<Seq<char>, CaaState>,
    world: World,
    path: Seq<char>,
    verify: bool,
)
    ensures
        resolve(index, world, seq!['/'] + path, verify) == resolve(index, world, path, verify),
{
    crate::folders::lemma_strip_slashes(path);
}

} // verus!
