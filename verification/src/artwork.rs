//! Resolving the cover art of a folder.
//!
//! A resolution is a small state machine. The machine itself reaches
//! neither the player daemon, nor the lookup service, nor the disk: each
//! stage names the one request that its caller has to carry out, and the
//! answer to it moves the machine on, until a terminal state is filed in
//! the folder index.

use vstd::prelude::*;
use crate::caa::CaaState;
use crate::error::AppError;
use crate::folders::{folder_key, lookup, strip_slashes, FolderInfoCache};
use crate::listing::{first_release, release_of, Entry};
use crate::release::{lemma_canonical_text_is_injective, lemma_canonical_text_shape, ReleaseId};

verus! {

/// The work that a resolution asks of its caller.
#[derive(Debug, Copy, Clone, Eq, PartialEq, Structural)]
pub enum Request {
    /// List everything below the folder through the control session.
    List,
    /// Say whether the blob cache holds the release.
    Probe(ReleaseId),
    /// Ask the lookup service for the front cover of the release.
    Fetch(ReleaseId),
    /// Write the artwork that the resolution holds into the blob cache.
    Store(ReleaseId),
    /// Nothing is left to do: the folder is in this terminal state.
    Done(CaaState),
    /// Nothing is left to do: the resolution failed.
    Fail(AppError),
}

impl Request {
    /// Whether carrying out the request takes a call over the network, to
    /// the player daemon or to the lookup service.
    pub open spec fn is_network(self) -> bool {
        self is List || self is Fetch
    }

    pub fn network(&self) -> (b: bool)
        ensures
            b == self.is_network(),
    {
        match self {
            Request::List => true,
            Request::Fetch(_) => true,
            _ => false,
        }
    }
}

/// What the caller reports back, as it came from the outside.
#[derive(Debug, Clone, PartialEq, Eq)]
pub enum Event {
    /// The records that the listing returned, in the order of the listing.
    Listed(Vec<Entry>),
    /// Whether the blob cache holds the release.
    Probed(bool),
    /// The final response of the lookup service, redirects followed.
    Fetched { status: u16, body: Vec<u8> },
    /// The artwork was written.
    Stored,
    /// The request could not be carried out.
    Failed(AppError),
}

/// What an event means for the resolution.
#[derive(Debug, Clone, PartialEq, Eq)]
pub enum Finding {
    /// The release of the folder, or that it has none.
    Release(Option<ReleaseId>),
    /// Whether the blob cache holds the release.
    Blob(bool),
    /// The artwork of the release, or that there is none.
    Artwork(Option<Vec<u8>>),
    /// The artwork was written.
    Stored,
    /// The request could not be carried out.
    Failure(AppError),
}

/// The status with which the lookup service hands out an image.
pub const STATUS_OK: u16 = 200;

/// What a response of the lookup service holds: the body of a response
/// with status 200 is the artwork, any other response says that there is
/// none.
pub open spec fn artwork_in(status: u16, body: Vec<u8>) -> Option<Vec<u8>> {
    if status == STATUS_OK {
        Some(body)
    } else {
        None
    }
}

/// Reads the final response of the lookup service.
pub fn from_coverartarchive(status: u16, body: Vec<u8>) -> (artwork: Option<Vec<u8>>)
    ensures
        artwork == artwork_in(status, body),
{
    if status == STATUS_OK {
        Some(body)
    } else {
        None
    }
}

impl Event {
    /// The finding that the event amounts to.
    pub open spec fn finding(self) -> Finding {
        match self {
            Event::Listed(entries) => Finding::Release(release_of(entries@)),
            Event::Probed(present) => Finding::Blob(present),
            Event::Fetched { status, body } => Finding::Artwork(artwork_in(status, body)),
            Event::Stored => Finding::Stored,
            Event::Failed(error) => Finding::Failure(error),
        }
    }

    pub fn interpret(self) -> (finding: Finding)
        ensures
            finding == self.finding(),
    {
        match self {
            Event::Listed(entries) => Finding::Release(ArtworkMachine::mbid_for_path(&entries)),
            Event::Probed(present) => Finding::Blob(present),
            Event::Fetched { status, body } => Finding::Artwork(from_coverartarchive(status, body)),
            Event::Stored => Finding::Stored,
            Event::Failed(error) => Finding::Failure(error),
        }
    }
}

/// Where a resolution stands.
#[derive(Debug, Clone, PartialEq, Eq)]
pub enum Stage {
    /// Nothing is known: the folder has to be listed.
    Listing,
    /// A release is known: the blob cache has to be asked for it.
    Probing(ReleaseId),
    /// The blob cache lacks the release: the lookup service has to be asked.
    Fetching(ReleaseId),
    /// The lookup service sent this artwork: it has to be written.
    Storing(ReleaseId, Vec<u8>),
    /// Terminal: no track of the folder names a release.
    NoMbid,
    /// Terminal: the lookup service has no artwork for the release.
    NoArtwork(ReleaseId),
    /// Terminal: the artwork of the release is in the blob cache.
    InCache(ReleaseId),
    /// The resolution was given up; nothing is filed.
    Aborted(AppError),
}

impl Stage {
    /// The stage at which a folder in the given state is taken up.
    pub open spec fn entry(state: CaaState) -> Stage {
        match state {
            CaaState::Unknown => Stage::Listing,
            CaaState::NoMbid => Stage::NoMbid,
            CaaState::MaybeArtwork(id) => Stage::Probing(id),
            CaaState::NoArtwork(id) => Stage::NoArtwork(id),
            CaaState::InCache(id) => Stage::InCache(id),
        }
    }

    /// The state of the folder while the resolution is at this stage; none
    /// once it is given up.
    pub open spec fn state(self) -> Option<CaaState> {
        match self {
            Stage::Listing => Some(CaaState::Unknown),
            Stage::Probing(id) => Some(CaaState::MaybeArtwork(id)),
            Stage::Fetching(id) => Some(CaaState::MaybeArtwork(id)),
            Stage::Storing(id, _) => Some(CaaState::MaybeArtwork(id)),
            Stage::NoMbid => Some(CaaState::NoMbid),
            Stage::NoArtwork(id) => Some(CaaState::NoArtwork(id)),
            Stage::InCache(id) => Some(CaaState::InCache(id)),
            Stage::Aborted(_) => None,
        }
    }

    /// The terminal state that the resolution has reached, if it has.
    pub open spec fn settled(self) -> Option<CaaState> {
        match self {
            Stage::NoMbid => Some(CaaState::NoMbid),
            Stage::NoArtwork(id) => Some(CaaState::NoArtwork(id)),
            Stage::InCache(id) => Some(CaaState::InCache(id)),
            _ => None,
        }
    }

    /// Whether the resolution still waits for an answer.
    pub open spec fn is_open(self) -> bool {
        self is Listing || self is Probing || self is Fetching || self is Storing
    }

    /// The request that is to be carried out at this stage.
    pub open spec fn request(self) -> Request {
        match self {
            Stage::Listing => Request::List,
            Stage::Probing(id) => Request::Probe(id),
            Stage::Fetching(id) => Request::Fetch(id),
            Stage::Storing(id, _) => Request::Store(id),
            Stage::NoMbid => Request::Done(CaaState::NoMbid),
            Stage::NoArtwork(id) => Request::Done(CaaState::NoArtwork(id)),
            Stage::InCache(id) => Request::Done(CaaState::InCache(id)),
            Stage::Aborted(error) => Request::Fail(error),
        }
    }

    /// Whether the finding is an answer to the request of this stage.
    pub open spec fn answered_by(self, finding: Finding) -> bool {
        match self {
            Stage::Listing => finding is Release,
            Stage::Probing(_) => finding is Blob || finding == Finding::Failure(AppError::NotFound),
            Stage::Fetching(_) => finding is Artwork,
            Stage::Storing(_, _) => finding is Stored,
            _ => false,
        }
    }

    /// The stage after a finding. A failure ends an open resolution, but
    /// for one: that the blob cache did not find the release is the answer
    /// that it lacks it. A finding that does not answer the request of the
    /// stage changes nothing; so no finding changes a stage that is
    /// terminal or given up.
    pub open spec fn after(self, finding: Finding) -> Stage {
        match self {
            Stage::Listing => match finding {
                Finding::Release(Some(id)) => Stage::Probing(id),
                Finding::Release(None) => Stage::NoMbid,
                Finding::Failure(error) => Stage::Aborted(error),
                _ => self,
            },
            Stage::Probing(id) => match finding {
                Finding::Blob(true) => Stage::InCache(id),
                Finding::Blob(false) => Stage::Fetching(id),
                Finding::Failure(AppError::NotFound) => Stage::Fetching(id),
                Finding::Failure(error) => Stage::Aborted(error),
                _ => self,
            },
            Stage::Fetching(id) => match finding {
                Finding::Artwork(Some(bytes)) => Stage::Storing(id, bytes),
                Finding::Artwork(None) => Stage::NoArtwork(id),
                Finding::Failure(error) => Stage::Aborted(error),
                _ => self,
            },
            Stage::Storing(id, _) => match finding {
                Finding::Stored => Stage::InCache(id),
                Finding::Failure(error) => Stage::Aborted(error),
                _ => self,
            },
            _ => self,
        }
    }

    pub fn from_state(state: CaaState) -> (stage: Stage)
        ensures
            stage == Stage::entry(state),
    {
        match state {
            CaaState::Unknown => Stage::Listing,
            CaaState::NoMbid => Stage::NoMbid,
            CaaState::MaybeArtwork(id) => Stage::Probing(id),
            CaaState::NoArtwork(id) => Stage::NoArtwork(id),
            CaaState::InCache(id) => Stage::InCache(id),
        }
    }

    pub fn terminal_state(&self) -> (state: Option<CaaState>)
        ensures
            state == self.settled(),
    {
        match self {
            Stage::NoMbid => Some(CaaState::NoMbid),
            Stage::NoArtwork(id) => Some(CaaState::NoArtwork(*id)),
            Stage::InCache(id) => Some(CaaState::InCache(*id)),
            _ => None,
        }
    }

    pub fn next_request(&self) -> (request: Request)
        ensures
            request == self.request(),
    {
        match self {
            Stage::Listing => Request::List,
            Stage::Probing(id) => Request::Probe(*id),
            Stage::Fetching(id) => Request::Fetch(*id),
            Stage::Storing(id, _) => Request::Store(*id),
            Stage::NoMbid => Request::Done(CaaState::NoMbid),
            Stage::NoArtwork(id) => Request::Done(CaaState::NoArtwork(*id)),
            Stage::InCache(id) => Request::Done(CaaState::InCache(*id)),
            Stage::Aborted(error) => Request::Fail(*error),
        }
    }

    /// Moves the resolution on by one finding.
    pub fn advance(self, finding: Finding) -> (next: Stage)
        ensures
            next == self.after(finding),
    {
        match self {
            Stage::Listing => match finding {
                Finding::Release(Some(id)) => Stage::Probing(id),
                Finding::Release(None) => Stage::NoMbid,
                Finding::Failure(error) => Stage::Aborted(error),
                _ => Stage::Listing,
            },
            Stage::Probing(id) => match finding {
                Finding::Blob(true) => Stage::InCache(id),
                Finding::Blob(false) => Stage::Fetching(id),
                Finding::Failure(AppError::NotFound) => Stage::Fetching(id),
                Finding::Failure(error) => Stage::Aborted(error),
                _ => Stage::Probing(id),
            },
            Stage::Fetching(id) => match finding {
                Finding::Artwork(Some(bytes)) => Stage::Storing(id, bytes),
                Finding::Artwork(None) => Stage::NoArtwork(id),
                Finding::Failure(error) => Stage::Aborted(error),
                _ => Stage::Fetching(id),
            },
            Stage::Storing(id, bytes) => match finding {
                Finding::Stored => Stage::InCache(id),
                Finding::Failure(error) => Stage::Aborted(error),
                _ => Stage::Storing(id, bytes),
            },
            other => other,
        }
    }
}

/// The index after a resolution has come to `stage`: a terminal state is
/// filed under the folder's key, anything else leaves the index as it was.
pub open spec fn filed(index: Map<Seq<char>, CaaState>, key: Seq<char>, stage: Stage) -> Map<
    Seq<char>,
    CaaState,
> {
    match stage.settled() {
        Some(state) => index.insert(key, state),
        None => index,
    }
}

/// One resolution under way: the key of its folder and its stage.
#[derive(Debug, Clone, PartialEq, Eq)]
pub struct Resolution {
    pub path: String,
    pub stage: Stage,
}

impl Resolution {
    /// The request that the caller has to carry out next.
    pub fn request(&self) -> (request: Request)
        ensures
            request == self.stage.request(),
    {
        self.stage.next_request()
    }

    /// The artwork that `Request::Store` asks to be written.
    pub fn artwork<'a>(&'a self) -> (bytes: Option<&'a Vec<u8>>)
        ensures
            match self.stage {
                Stage::Storing(_, held) => bytes == Some(&held),
                _ => bytes is None,
            },
    {
        match &self.stage {
            Stage::Storing(_, held) => Some(held),
            _ => None,
        }
    }

    /// How the resolution ended, once it has.
    pub fn outcome(&self) -> (ended: Option<Result<CaaState, AppError>>)
        ensures
            ended == match self.stage.request() {
                Request::Done(state) => Some(Ok::<CaaState, AppError>(state)),
                Request::Fail(error) => Some(Err::<CaaState, AppError>(error)),
                _ => None,
            },
    {
        match self.stage.next_request() {
            Request::Done(state) => Some(Ok(state)),
            Request::Fail(error) => Some(Err(error)),
            _ => None,
        }
    }
}

/// The pictures that are shown in place of artwork that there is none of.
#[derive(Debug, Copy, Clone, Eq, PartialEq, Structural)]
pub enum Placeholder {
    /// No artwork is at hand for the folder.
    NoArtworkFound,
    /// The folder names no release.
    NoMbIdFound,
}

impl Placeholder {
    /// Where the picture is served.
    pub open spec fn location_of(self) -> Seq<char> {
        match self {
            Placeholder::NoArtworkFound => "/images/NoArtworkFound.png"@,
            Placeholder::NoMbIdFound => "/images/NoMbIdFound.png"@,
        }
    }

    pub fn location(&self) -> (location: String)
        ensures
            location@ == self.location_of(),
    {
        match self {
            Placeholder::NoArtworkFound => String::from_str("/images/NoArtworkFound.png"),
            Placeholder::NoMbIdFound => String::from_str("/images/NoMbIdFound.png"),
        }
    }
}

/// What is sent to a client that asked for the artwork of a folder.
#[derive(Debug, Copy, Clone, Eq, PartialEq, Structural)]
pub enum ArtworkReply {
    /// A temporary redirect to a placeholder.
    Redirect(Placeholder),
    /// The artwork of the release, read from the blob cache.
    Image(ReleaseId),
}

/// The reply for a folder in the given state: the image where it is in
/// the blob cache, the placeholder for a folder without a release where
/// that was found, the placeholder for missing artwork otherwise.
pub open spec fn reply_for(state: CaaState) -> ArtworkReply {
    match state {
        CaaState::InCache(id) => ArtworkReply::Image(id),
        CaaState::NoMbid => ArtworkReply::Redirect(Placeholder::NoMbIdFound),
        _ => ArtworkReply::Redirect(Placeholder::NoArtworkFound),
    }
}

/// Chooses the reply to a client from the state that the resolution of the
/// folder returned.
pub fn artwork(state: CaaState) -> (reply: ArtworkReply)
    ensures
        reply == reply_for(state),
{
    match state {
        CaaState::NoArtwork(_) | CaaState::Unknown | CaaState::MaybeArtwork(_) => {
            ArtworkReply::Redirect(Placeholder::NoArtworkFound)
        },
        CaaState::NoMbid => ArtworkReply::Redirect(Placeholder::NoMbIdFound),
        CaaState::InCache(mbid) => ArtworkReply::Image(mbid),
    }
}

/// Where the artwork of a release is looked up.
pub open spec fn cover_url_of(id: ReleaseId) -> Seq<char> {
    "https://coverartarchive.org/release/"@ + id.text() + "/front"@
}

/// The address of the front cover of a release at the lookup service.
pub fn cover_url(mbid: &ReleaseId) -> (url: String)
    ensures
        url@ == cover_url_of(*mbid),
{
    let mut url = String::from_str("https://coverartarchive.org/release/");
    let name = mbid.to_text();
    url.append(name.as_str());
    url.append("/front");
    url
}

/// Where the blob cache keeps the artwork of a release.
pub open spec fn artwork_path_of(id: ReleaseId) -> Seq<char> {
    "cache/albumart/"@ + id.text()
}

/// Drives the resolution of a folder's artwork.
#[derive(Debug, Copy, Clone, PartialEq, Eq, Structural)]
pub struct ArtworkMachine;

impl ArtworkMachine {
    /// The stage at which the resolution of `path` starts: that of the
    /// state filed for the folder, a cached entry being looked at again
    /// where `verify` is set.
    pub open spec fn start(index: Map<Seq<char>, CaaState>, path: Seq<char>, verify: bool) -> Stage {
        Stage::entry(lookup(index, strip_slashes(path)).working(verify))
    }

    /// Takes up the resolution of the folder `path`. Nothing is written.
    pub fn begin(&self, fc: &FolderInfoCache, path: &str, check_file_exists: bool) -> (run:
        Resolution)
        ensures
            run.path@ == strip_slashes(path@),
            run.stage == ArtworkMachine::start(fc@, path@, check_file_exists),
    {
        let key = folder_key(path);
        let state = fc.get(key).demote(check_file_exists);
        Resolution { path: String::from_str(key), stage: Stage::from_state(state) }
    }

    /// Moves the resolution on by one finding and returns the next
    /// request. When the resolution comes to a terminal state, that state
    /// is filed under the folder's key; otherwise the index is left alone.
    pub fn apply(&self, fc: &mut FolderInfoCache, run: &mut Resolution, finding: Finding) -> (request:
        Request)
        ensures
            final(run).path == old(run).path,
            final(run).stage == old(run).stage.after(finding),
            request == final(run).stage.request(),
            final(fc)@ == filed(old(fc)@, old(run).path@, final(run).stage),
    {
        let mut stage = Stage::Listing;
        std::mem::swap(&mut stage, &mut run.stage);
        let next = stage.advance(finding);
        match next.terminal_state() {
            Some(state) => {
                fc.update_caa(run.path.as_str(), state);
            },
            None => {},
        }
        let request = next.next_request();
        run.stage = next;
        request
    }

    /// Feeds the answer to the last request into the resolution, as it
    /// came from the outside, and returns the next request. The index is
    /// written as `apply` writes it.
    pub fn update(&self, fc: &mut FolderInfoCache, run: &mut Resolution, event: Event) -> (request:
        Request)
        ensures
            final(run).path == old(run).path,
            final(run).stage == old(run).stage.after(event.finding()),
            request == final(run).stage.request(),
            final(fc)@ == filed(old(fc)@, old(run).path@, final(run).stage),
    {
        let finding = event.interpret();
        self.apply(fc, run, finding)
    }

    /// The release of a folder, from the listing of the folder: that of
    /// the first track which names one.
    pub fn mbid_for_path(listing: &Vec<Entry>) -> (mbid: Option<ReleaseId>)
        ensures
            mbid == release_of(listing@),
    {
        match first_release(listing) {
            Some(text) => ReleaseId::parse(text),
            None => None,
        }
    }

    /// The file in which the blob cache keeps the artwork of a release.
    pub fn artwork_path(&self, mbid: &ReleaseId) -> (path: String)
        ensures
            path@ == artwork_path_of(*mbid),
    {
        let mut path = String::from_str("cache/albumart/");
        let name = mbid.to_text();
        path.append(name.as_str());
        path
    }
}

/// Each release has a file of its own in the blob cache and an address of
/// its own at the lookup service, and the file lies right in the cache's
/// directory.
pub proof fn lemma_one_place_for_each_release(a: ReleaseId, b: ReleaseId)
    ensures
        artwork_path_of(a) == artwork_path_of(b) ==> a == b,
        cover_url_of(a) == cover_url_of(b) ==> a == b,
        artwork_path_of(a) == "cache/albumart/"@ + a.text(),
        a.text().len() == 36 && !a.text().contains('/'),
{
    lemma_canonical_text_shape(a.bits);
    lemma_canonical_text_shape(b.bits);
    let root = "cache/albumart/"@;
    let site = "https://coverartarchive.org/release/"@;
    let front = "/front"@;
    if artwork_path_of(a) == artwork_path_of(b) {
        assert(a.text() =~= artwork_path_of(a).skip(root.len() as int));
        assert(b.text() =~= artwork_path_of(b).skip(root.len() as int));
        lemma_canonical_text_is_injective(a.bits, b.bits);
    }
    if cover_url_of(a) == cover_url_of(b) {
        assert(a.text() =~= cover_url_of(a).subrange(site.len() as int, site.len() as int + 36));
        assert(b.text() =~= cover_url_of(b).subrange(site.len() as int, site.len() as int + 36));
        lemma_canonical_text_is_injective(a.bits, b.bits);
    }
}

} // verus!
