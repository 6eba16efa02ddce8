use std::collections::HashMap;

use moped::artwork::{
    artwork, cover_url, from_coverartarchive, ArtworkMachine, ArtworkReply, Event, Finding,
    Placeholder, Request, Resolution, Stage,
};
use moped::caa::CaaState;
use moped::error::{AppError, ProtocolError};
use moped::folders::FolderInfoCache;
use moped::listing::Entry;
use moped::release::ReleaseId;

const ALBUM: &str = "Artist/Album";
const RELEASE: &str = "76df3287-6cda-33eb-8e9a-044b5e15ffdd";

fn release() -> ReleaseId {
    ReleaseId::parse(RELEASE).unwrap()
}

fn jpeg() -> Vec<u8> {
    vec![0xFF, 0xD8, 0xFF, 0xE0, 0x00, 0x10, 0x4A, 0x46, 0x49, 0x46]
}

/// Stubs for the player daemon, the blob cache and the lookup service.
struct Stub {
    listing: Result<Vec<Entry>, ProtocolError>,
    blobs: HashMap<ReleaseId, Vec<u8>>,
    remote: HashMap<ReleaseId, Vec<u8>>,
    remote_down: bool,
    disk_full: bool,
    lists: usize,
    probes: usize,
    fetches: usize,
    stores: usize,
}

impl Stub {
    fn new(listing: Vec<Entry>) -> Stub {
        Stub {
            listing: Ok(listing),
            blobs: HashMap::new(),
            remote: HashMap::new(),
            remote_down: false,
            disk_full: false,
            lists: 0,
            probes: 0,
            fetches: 0,
            stores: 0,
        }
    }

    fn with_release() -> Stub {
        Stub::new(vec![
            Entry::Directory { path: ALBUM.to_string() },
            Entry::Track { file: "Artist/Album/01.flac".to_string(), release: Some(RELEASE.to_string()) },
        ])
    }

    fn calls(&self) -> (usize, usize, usize, usize) {
        (self.lists, self.probes, self.fetches, self.stores)
    }

    fn serve(&mut self, request: Request, run: &Resolution) -> Event {
        match request {
            Request::List => {
                self.lists += 1;
                match &self.listing {
                    Ok(entries) => Event::Listed(entries.clone()),
                    Err(e) => Event::Failed(AppError::Mpd(*e)),
                }
            }
            Request::Probe(id) => {
                self.probes += 1;
                Event::Probed(self.blobs.contains_key(&id))
            }
            Request::Fetch(id) => {
                self.fetches += 1;
                if self.remote_down {
                    Event::Failed(AppError::RemoteUnavailable)
                } else {
                    match self.remote.get(&id) {
                        Some(bytes) => Event::Fetched { status: 200, body: bytes.clone() },
                        None => Event::Fetched { status: 404, body: b"Not Found".to_vec() },
                    }
                }
            }
            Request::Store(id) => {
                self.stores += 1;
                if self.disk_full {
                    Event::Failed(AppError::IoError)
                } else {
                    self.blobs.insert(id, run.artwork().unwrap().clone());
                    Event::Stored
                }
            }
            Request::Done(_) | Request::Fail(_) => unreachable!(),
        }
    }
}

fn resolve(
    stub: &mut Stub,
    fc: &mut FolderInfoCache,
    path: &str,
    verify: bool,
) -> Result<CaaState, AppError> {
    let awm = ArtworkMachine;
    let mut run = awm.begin(fc, path, verify);
    let mut request = run.request();
    let mut turns = 0;
    loop {
        match request {
            Request::Done(state) => {
                assert_eq!(run.outcome(), Some(Ok(state)));
                return Ok(state);
            }
            Request::Fail(error) => {
                assert_eq!(run.outcome(), Some(Err(error)));
                return Err(error);
            }
            _ => assert_eq!(run.outcome(), None),
        }
        turns += 1;
        assert!(turns <= 4, "a resolution takes at most four requests");
        let event = stub.serve(request, &run);
        request = awm.update(fc, &mut run, event);
        assert_eq!(request, run.request());
    }
}

#[test]
fn scenario_artwork_is_fetched_and_cached() {
    let mut stub = Stub::with_release();
    stub.remote.insert(release(), jpeg());
    let mut fc = FolderInfoCache::new();
    let state = resolve(&mut stub, &mut fc, ALBUM, false);
    assert_eq!(state, Ok(CaaState::InCache(release())));
    assert_eq!(stub.blobs.get(&release()), Some(&jpeg()));
    assert_eq!(fc.get(ALBUM), CaaState::InCache(release()));
    assert_eq!(stub.calls(), (1, 1, 1, 1));
}

#[test]
fn scenario_no_artwork_is_remembered() {
    let mut stub = Stub::with_release();
    let mut fc = FolderInfoCache::new();
    assert_eq!(resolve(&mut stub, &mut fc, ALBUM, false), Ok(CaaState::NoArtwork(release())));
    assert_eq!(fc.get(ALBUM), CaaState::NoArtwork(release()));
    assert_eq!(stub.calls(), (1, 1, 1, 0));
    assert_eq!(resolve(&mut stub, &mut fc, ALBUM, false), Ok(CaaState::NoArtwork(release())));
    assert_eq!(stub.fetches, 1);
    assert_eq!(stub.calls(), (1, 1, 1, 0));
    assert_eq!(resolve(&mut stub, &mut fc, ALBUM, true), Ok(CaaState::NoArtwork(release())));
    assert_eq!(stub.calls(), (1, 1, 1, 0));
    assert!(stub.blobs.is_empty());
}

#[test]
fn scenario_folder_without_release() {
    let mut stub = Stub::new(vec![
        Entry::Directory { path: ALBUM.to_string() },
        Entry::Track { file: "Artist/Album/01.flac".to_string(), release: None },
        Entry::Track { file: "Artist/Album/02.flac".to_string(), release: Some(String::new()) },
    ]);
    stub.remote.insert(release(), jpeg());
    let mut fc = FolderInfoCache::new();
    assert_eq!(resolve(&mut stub, &mut fc, ALBUM, true), Ok(CaaState::NoMbid));
    assert_eq!(fc.get(ALBUM), CaaState::NoMbid);
    assert_eq!(stub.calls(), (1, 0, 0, 0));
    assert!(stub.blobs.is_empty());
}

#[test]
fn invalid_release_text_counts_as_no_release() {
    let mut stub = Stub::new(vec![Entry::Track {
        file: "x".to_string(),
        release: Some("76df3287".to_string()),
    }]);
    let mut fc = FolderInfoCache::new();
    assert_eq!(resolve(&mut stub, &mut fc, ALBUM, false), Ok(CaaState::NoMbid));
    assert_eq!(stub.calls(), (1, 0, 0, 0));
}

#[test]
fn resolving_twice_gives_the_same_state_without_network() {
    for verify in [false, true] {
        let mut stub = Stub::with_release();
        stub.remote.insert(release(), jpeg());
        let mut fc = FolderInfoCache::new();
        let first = resolve(&mut stub, &mut fc, ALBUM, verify);
        assert_eq!(first, Ok(CaaState::InCache(release())));
        let (lists, _, fetches, stores) = stub.calls();
        let second = resolve(&mut stub, &mut fc, ALBUM, verify);
        assert_eq!(second, first);
        assert_eq!(stub.lists, lists);
        assert_eq!(stub.fetches, fetches);
        assert_eq!(stub.stores, stores);
        assert_eq!(fc.get(ALBUM), CaaState::InCache(release()));
        assert_eq!(fc.len(), 1);
    }
}

#[test]
fn blob_on_disk_is_found_without_fetching() {
    let mut stub = Stub::with_release();
    stub.blobs.insert(release(), jpeg());
    let mut fc = FolderInfoCache::new();
    assert_eq!(resolve(&mut stub, &mut fc, ALBUM, false), Ok(CaaState::InCache(release())));
    assert_eq!(stub.calls(), (1, 1, 0, 0));
}

#[test]
fn verify_flag_fetches_a_lost_blob_again() {
    let mut stub = Stub::with_release();
    stub.remote.insert(release(), jpeg());
    let mut fc = FolderInfoCache::new();
    assert_eq!(resolve(&mut stub, &mut fc, ALBUM, false), Ok(CaaState::InCache(release())));
    stub.blobs.clear();
    assert_eq!(resolve(&mut stub, &mut fc, ALBUM, false), Ok(CaaState::InCache(release())));
    assert_eq!(stub.calls(), (1, 1, 1, 1));
    assert!(stub.blobs.is_empty());
    assert_eq!(resolve(&mut stub, &mut fc, ALBUM, true), Ok(CaaState::InCache(release())));
    assert_eq!(stub.calls(), (1, 2, 2, 2));
    assert_eq!(stub.blobs.get(&release()), Some(&jpeg()));
    assert_eq!(fc.get(ALBUM), CaaState::InCache(release()));
}

#[test]
fn verify_flag_finds_that_the_artwork_is_gone_upstream() {
    let mut stub = Stub::with_release();
    stub.remote.insert(release(), jpeg());
    let mut fc = FolderInfoCache::new();
    assert_eq!(resolve(&mut stub, &mut fc, ALBUM, false), Ok(CaaState::InCache(release())));
    stub.blobs.clear();
    stub.remote.clear();
    assert_eq!(resolve(&mut stub, &mut fc, ALBUM, true), Ok(CaaState::NoArtwork(release())));
    assert_eq!(stub.calls(), (1, 2, 2, 1));
    assert_eq!(fc.get(ALBUM), CaaState::NoArtwork(release()));
}

#[test]
fn verify_flag_with_blob_in_place_asks_the_disk_only() {
    let mut stub = Stub::with_release();
    stub.remote.insert(release(), jpeg());
    let mut fc = FolderInfoCache::new();
    assert_eq!(resolve(&mut stub, &mut fc, ALBUM, true), Ok(CaaState::InCache(release())));
    assert_eq!(resolve(&mut stub, &mut fc, ALBUM, true), Ok(CaaState::InCache(release())));
    assert_eq!(stub.calls(), (1, 2, 1, 1));
}

#[test]
fn leading_slashes_name_the_same_folder() {
    let mut stub = Stub::with_release();
    stub.remote.insert(release(), jpeg());
    let mut fc = FolderInfoCache::new();
    assert_eq!(resolve(&mut stub, &mut fc, "/Artist/Album", false), Ok(CaaState::InCache(release())));
    assert_eq!(fc.get(ALBUM), CaaState::InCache(release()));
    assert_eq!(fc.len(), 1);
    assert_eq!(resolve(&mut stub, &mut fc, "Artist/Album", false), Ok(CaaState::InCache(release())));
    assert_eq!(resolve(&mut stub, &mut fc, "//Artist/Album", false), Ok(CaaState::InCache(release())));
    assert_eq!(stub.calls(), (1, 1, 1, 1));
    assert_eq!(fc.len(), 1);
}

#[test]
fn unreachable_lookup_service_is_an_error_and_files_nothing() {
    let mut stub = Stub::with_release();
    stub.remote.insert(release(), jpeg());
    stub.remote_down = true;
    let mut fc = FolderInfoCache::new();
    assert_eq!(resolve(&mut stub, &mut fc, ALBUM, false), Err(AppError::RemoteUnavailable));
    assert_eq!(fc.caa(ALBUM), None);
    assert_eq!(fc.len(), 0);
    stub.remote_down = false;
    assert_eq!(resolve(&mut stub, &mut fc, ALBUM, false), Ok(CaaState::InCache(release())));
    assert_eq!(stub.calls(), (2, 2, 2, 1));
}

#[test]
fn failed_write_is_an_error_and_files_nothing() {
    let mut stub = Stub::with_release();
    stub.remote.insert(release(), jpeg());
    stub.disk_full = true;
    let mut fc = FolderInfoCache::new();
    fc.update_caa("Other", CaaState::NoMbid);
    assert_eq!(resolve(&mut stub, &mut fc, ALBUM, false), Err(AppError::IoError));
    assert_eq!(fc.caa(ALBUM), None);
    assert_eq!(fc.get("Other"), CaaState::NoMbid);
    assert_eq!(fc.len(), 1);
}

#[test]
fn failed_listing_is_an_error_and_files_nothing() {
    let mut stub = Stub::with_release();
    stub.listing = Err(ProtocolError::Disconnected);
    let mut fc = FolderInfoCache::new();
    assert_eq!(
        resolve(&mut stub, &mut fc, ALBUM, false),
        Err(AppError::Mpd(ProtocolError::Disconnected))
    );
    assert_eq!(fc.len(), 0);
    assert_eq!(stub.calls(), (1, 0, 0, 0));
}

#[test]
fn failure_keeps_a_verified_entry_as_it_was_filed() {
    let mut stub = Stub::with_release();
    stub.remote.insert(release(), jpeg());
    let mut fc = FolderInfoCache::new();
    assert_eq!(resolve(&mut stub, &mut fc, ALBUM, false), Ok(CaaState::InCache(release())));
    stub.blobs.clear();
    stub.remote_down = true;
    assert_eq!(resolve(&mut stub, &mut fc, ALBUM, true), Err(AppError::RemoteUnavailable));
    assert_eq!(fc.get(ALBUM), CaaState::InCache(release()));
}

#[test]
fn begin_reads_the_index_and_writes_nothing() {
    let awm = ArtworkMachine;
    let mut fc = FolderInfoCache::new();
    let run = awm.begin(&fc, "/a", true);
    assert_eq!(run, Resolution { path: "a".to_string(), stage: Stage::Listing });
    assert_eq!(run.request(), Request::List);
    fc.update_caa("a", CaaState::InCache(release()));
    assert_eq!(awm.begin(&fc, "/a", true).stage, Stage::Probing(release()));
    assert_eq!(awm.begin(&fc, "/a", false).stage, Stage::InCache(release()));
    assert_eq!(awm.begin(&fc, "a", false).request(), Request::Done(CaaState::InCache(release())));
    fc.update_caa("a", CaaState::MaybeArtwork(release()));
    assert_eq!(awm.begin(&fc, "a", false).stage, Stage::Probing(release()));
    fc.update_caa("a", CaaState::NoArtwork(release()));
    assert_eq!(awm.begin(&fc, "a", true).stage, Stage::NoArtwork(release()));
    fc.update_caa("a", CaaState::NoMbid);
    assert_eq!(awm.begin(&fc, "a", true).stage, Stage::NoMbid);
    assert_eq!(fc.len(), 1);
}

#[test]
fn every_transition_of_the_machine() {
    let id = release();
    assert_eq!(Stage::Listing.advance(Finding::Release(Some(id))), Stage::Probing(id));
    assert_eq!(Stage::Listing.advance(Finding::Release(None)), Stage::NoMbid);
    assert_eq!(Stage::Probing(id).advance(Finding::Blob(true)), Stage::InCache(id));
    assert_eq!(Stage::Probing(id).advance(Finding::Blob(false)), Stage::Fetching(id));
    assert_eq!(Stage::Fetching(id).advance(Finding::Artwork(Some(jpeg()))), Stage::Storing(id, jpeg()));
    assert_eq!(Stage::Fetching(id).advance(Finding::Artwork(None)), Stage::NoArtwork(id));
    assert_eq!(Stage::Storing(id, jpeg()).advance(Finding::Stored), Stage::InCache(id));
    for open in [Stage::Listing, Stage::Probing(id), Stage::Fetching(id), Stage::Storing(id, jpeg())] {
        assert_eq!(
            open.advance(Finding::Failure(AppError::IoError)),
            Stage::Aborted(AppError::IoError)
        );
    }
}

#[test]
fn terminal_stages_are_sinks() {
    let id = release();
    let other = ReleaseId::from_bits(5);
    let findings = [
        Finding::Release(Some(other)),
        Finding::Release(None),
        Finding::Blob(true),
        Finding::Blob(false),
        Finding::Artwork(Some(jpeg())),
        Finding::Artwork(None),
        Finding::Stored,
        Finding::Failure(AppError::RemoteUnavailable),
    ];
    for stage in [
        Stage::NoMbid,
        Stage::NoArtwork(id),
        Stage::InCache(id),
        Stage::Aborted(AppError::NotFound),
    ] {
        for finding in findings.iter() {
            assert_eq!(stage.clone().advance(finding.clone()), stage);
        }
    }
}

#[test]
fn findings_that_answer_nothing_change_nothing() {
    let id = release();
    assert_eq!(Stage::Listing.advance(Finding::Blob(true)), Stage::Listing);
    assert_eq!(Stage::Listing.advance(Finding::Stored), Stage::Listing);
    assert_eq!(Stage::Probing(id).advance(Finding::Release(None)), Stage::Probing(id));
    assert_eq!(Stage::Probing(id).advance(Finding::Artwork(None)), Stage::Probing(id));
    assert_eq!(Stage::Fetching(id).advance(Finding::Blob(true)), Stage::Fetching(id));
    assert_eq!(Stage::Fetching(id).advance(Finding::Stored), Stage::Fetching(id));
    assert_eq!(
        Stage::Storing(id, jpeg()).advance(Finding::Artwork(None)),
        Stage::Storing(id, jpeg())
    );
    let mut fc = FolderInfoCache::new();
    let awm = ArtworkMachine;
    let mut run = awm.begin(&fc, ALBUM, false);
    assert_eq!(awm.update(&mut fc, &mut run, Event::Stored), Request::List);
    assert_eq!(run.stage, Stage::Listing);
    assert_eq!(fc.len(), 0);
}

#[test]
fn requests_and_states_of_stages() {
    let id = release();
    assert_eq!(Stage::Listing.next_request(), Request::List);
    assert_eq!(Stage::Probing(id).next_request(), Request::Probe(id));
    assert_eq!(Stage::Fetching(id).next_request(), Request::Fetch(id));
    assert_eq!(Stage::Storing(id, jpeg()).next_request(), Request::Store(id));
    assert_eq!(Stage::NoMbid.next_request(), Request::Done(CaaState::NoMbid));
    assert_eq!(Stage::NoArtwork(id).next_request(), Request::Done(CaaState::NoArtwork(id)));
    assert_eq!(Stage::InCache(id).next_request(), Request::Done(CaaState::InCache(id)));
    assert_eq!(Stage::Aborted(AppError::IoError).next_request(), Request::Fail(AppError::IoError));
    assert_eq!(Stage::Storing(id, jpeg()).terminal_state(), None);
    assert_eq!(Stage::Aborted(AppError::IoError).terminal_state(), None);
    assert_eq!(Stage::InCache(id).terminal_state(), Some(CaaState::InCache(id)));
    assert_eq!(Stage::from_state(CaaState::Unknown), Stage::Listing);
    assert_eq!(Stage::from_state(CaaState::MaybeArtwork(id)), Stage::Probing(id));
    assert!(Request::List.network());
    assert!(Request::Fetch(id).network());
    assert!(!Request::Probe(id).network());
    assert!(!Request::Store(id).network());
    assert!(!Request::Done(CaaState::NoMbid).network());
}

#[test]
fn events_are_interpreted() {
    let listing = vec![Entry::Track { file: "f".to_string(), release: Some(RELEASE.to_string()) }];
    assert_eq!(Event::Listed(listing).interpret(), Finding::Release(Some(release())));
    assert_eq!(Event::Listed(vec![]).interpret(), Finding::Release(None));
    assert_eq!(Event::Probed(true).interpret(), Finding::Blob(true));
    assert_eq!(
        Event::Fetched { status: 200, body: jpeg() }.interpret(),
        Finding::Artwork(Some(jpeg()))
    );
    assert_eq!(Event::Fetched { status: 404, body: jpeg() }.interpret(), Finding::Artwork(None));
    assert_eq!(Event::Stored.interpret(), Finding::Stored);
    assert_eq!(
        Event::Failed(AppError::NotFound).interpret(),
        Finding::Failure(AppError::NotFound)
    );
}

#[test]
fn only_status_200_carries_artwork() {
    assert_eq!(from_coverartarchive(200, jpeg()), Some(jpeg()));
    assert_eq!(from_coverartarchive(200, vec![]), Some(vec![]));
    for status in [0u16, 199, 201, 204, 301, 307, 404, 500, 503, u16::MAX] {
        assert_eq!(from_coverartarchive(status, jpeg()), None);
    }
}

#[test]
fn cover_url_and_artwork_path() {
    assert_eq!(
        cover_url(&release()),
        "https://coverartarchive.org/release/76df3287-6cda-33eb-8e9a-044b5e15ffdd/front"
    );
    assert_eq!(
        ArtworkMachine.artwork_path(&release()),
        "cache/albumart/76df3287-6cda-33eb-8e9a-044b5e15ffdd"
    );
    assert_eq!(
        ArtworkMachine.artwork_path(&ReleaseId::from_bits(0)),
        "cache/albumart/00000000-0000-0000-0000-000000000000"
    );
}

#[test]
fn replies_to_the_client() {
    let id = release();
    assert_eq!(artwork(CaaState::InCache(id)), ArtworkReply::Image(id));
    assert_eq!(artwork(CaaState::NoMbid), ArtworkReply::Redirect(Placeholder::NoMbIdFound));
    assert_eq!(artwork(CaaState::NoArtwork(id)), ArtworkReply::Redirect(Placeholder::NoArtworkFound));
    assert_eq!(artwork(CaaState::Unknown), ArtworkReply::Redirect(Placeholder::NoArtworkFound));
    assert_eq!(
        artwork(CaaState::MaybeArtwork(id)),
        ArtworkReply::Redirect(Placeholder::NoArtworkFound)
    );
    assert_eq!(Placeholder::NoArtworkFound.location(), "/images/NoArtworkFound.png");
    assert_eq!(Placeholder::NoMbIdFound.location(), "/images/NoMbIdFound.png");
}

#[test]
fn blob_not_found_while_probing_means_fetch() {
    let id = release();
    assert_eq!(
        Stage::Probing(id).advance(Finding::Failure(AppError::NotFound)),
        Stage::Fetching(id)
    );
    assert_eq!(
        Stage::Probing(id).advance(Finding::Failure(AppError::IoError)),
        Stage::Aborted(AppError::IoError)
    );
    assert_eq!(
        Stage::Listing.advance(Finding::Failure(AppError::NotFound)),
        Stage::Aborted(AppError::NotFound)
    );
    assert_eq!(
        Stage::Fetching(id).advance(Finding::Failure(AppError::NotFound)),
        Stage::Aborted(AppError::NotFound)
    );
    let mut fc = FolderInfoCache::new();
    fc.update_caa(ALBUM, CaaState::InCache(id));
    let awm = ArtworkMachine;
    let mut run = awm.begin(&fc, ALBUM, true);
    assert_eq!(run.request(), Request::Probe(id));
    assert_eq!(awm.update(&mut fc, &mut run, Event::Failed(AppError::NotFound)), Request::Fetch(id));
    assert_eq!(
        awm.update(&mut fc, &mut run, Event::Fetched { status: 200, body: jpeg() }),
        Request::Store(id)
    );
    assert_eq!(run.artwork(), Some(&jpeg()));
    assert_eq!(fc.get(ALBUM), CaaState::InCache(id));
    assert_eq!(awm.update(&mut fc, &mut run, Event::Stored), Request::Done(CaaState::InCache(id)));
    assert_eq!(fc.get(ALBUM), CaaState::InCache(id));
}

#[test]
fn release_is_kept_through_a_resolution() {
    let id = release();
    let other = ReleaseId::from_bits(9);
    let mut stage = Stage::Listing.advance(Finding::Release(Some(id)));
    for finding in [
        Finding::Release(Some(other)),
        Finding::Blob(false),
        Finding::Release(Some(other)),
        Finding::Artwork(Some(jpeg())),
        Finding::Release(None),
        Finding::Stored,
        Finding::Release(Some(other)),
    ] {
        stage = stage.advance(finding);
        assert_eq!(stage.next_request().clone(), stage.next_request());
        match &stage {
            Stage::Probing(held) | Stage::Fetching(held) | Stage::Storing(held, _) => {
                assert_eq!(*held, id)
            }
            Stage::InCache(held) | Stage::NoArtwork(held) => assert_eq!(*held, id),
            other => panic!("unexpected stage {:?}", other),
        }
    }
    assert_eq!(stage, Stage::InCache(id));
}

#[test]
fn apply_files_terminal_states_only() {
    let id = release();
    let awm = ArtworkMachine;
    let mut fc = FolderInfoCache::new();
    let mut run = awm.begin(&fc, "/x/y", false);
    assert_eq!(awm.apply(&mut fc, &mut run, Finding::Release(Some(id))), Request::Probe(id));
    assert_eq!(fc.len(), 0);
    assert_eq!(awm.apply(&mut fc, &mut run, Finding::Blob(false)), Request::Fetch(id));
    assert_eq!(fc.len(), 0);
    assert_eq!(
        awm.apply(&mut fc, &mut run, Finding::Artwork(None)),
        Request::Done(CaaState::NoArtwork(id))
    );
    assert_eq!(fc.caa("x/y"), Some(&CaaState::NoArtwork(id)));
    assert_eq!(fc.len(), 1);
    assert_eq!(run.path, "x/y");
    assert_eq!(
        awm.apply(&mut fc, &mut run, Finding::Blob(true)),
        Request::Done(CaaState::NoArtwork(id))
    );
    assert_eq!(fc.caa("x/y"), Some(&CaaState::NoArtwork(id)));
    assert_eq!(fc.len(), 1);
}
