use std::collections::HashMap;

use playlist_sync::engine::{Action, Event, LedgerWrite, Outcome, Phase, PlaylistSummary, PlaylistSync};
use playlist_sync::ledger::Ledger;
use playlist_sync::ratelimit::RateBudget;

/// A source and a destination that answer the engine's actions.
struct World {
    /// Pages by address: track ids and the next page's address.
    pages: HashMap<String, (Vec<String>, Option<String>)>,
    /// Cross-catalog identifier of each source track id.
    isrc_of: HashMap<String, String>,
    /// Track reference of each identifier that the destination can find.
    found: HashMap<String, String>,
    /// The mirror's members, as cross-catalog identifiers.
    dest: Vec<String>,
    /// Remaining-tokens header of each page response.
    remaining: Option<String>,
    creates: usize,
    adds: usize,
    added_uris: Vec<String>,
    membership_gets: usize,
    page_fetches: usize,
    waits: usize,
    searches: Vec<String>,
    writes: usize,
}

impl World {
    fn new() -> World {
        World {
            pages: HashMap::new(),
            isrc_of: HashMap::new(),
            found: HashMap::new(),
            dest: Vec::new(),
            remaining: Some("100".to_string()),
            creates: 0,
            adds: 0,
            added_uris: Vec::new(),
            membership_gets: 0,
            page_fetches: 0,
            waits: 0,
            searches: Vec::new(),
            writes: 0,
        }
    }

    fn track(&mut self, id: &str, isrc: &str, findable: bool) {
        self.isrc_of.insert(id.to_string(), isrc.to_string());
        if findable {
            self.found.insert(isrc.to_string(), format!("uri:{}", isrc));
        }
    }

    fn page(&mut self, url: &str, ids: &[&str], next: Option<&str>) {
        self.pages.insert(
            url.to_string(),
            (ids.iter().map(|s| s.to_string()).collect(), next.map(|s| s.to_string())),
        );
    }

    fn reset_counts(&mut self) {
        self.creates = 0;
        self.adds = 0;
        self.added_uris.clear();
        self.membership_gets = 0;
        self.page_fetches = 0;
        self.waits = 0;
        self.searches.clear();
        self.writes = 0;
    }

    /// Runs one playlist to its end and returns the engine.
    fn run(&mut self, ledger: &mut Ledger, summary: PlaylistSummary, budget: RateBudget) -> PlaylistSync {
        let (mut sync, mut step) = PlaylistSync::start(summary, budget, ledger);
        loop {
            if step.write.is_some() {
                self.writes += 1;
            }
            let event = match step.action {
                Action::Finish => break,
                Action::Wait { seconds } => {
                    assert_eq!(seconds, 3);
                    self.waits += 1;
                    Event::Waited
                }
                Action::FetchPage { url } => {
                    self.page_fetches += 1;
                    let (ids, next) = self.pages.get(&url).cloned().expect("known page");
                    Event::Page {
                        track_ids: ids,
                        next,
                        remaining: self.remaining.clone(),
                        requested: Some("1".to_string()),
                    }
                }
                Action::FetchDetails { track_ids } => Event::Details {
                    isrcs: track_ids.iter().map(|id| self.isrc_of[id].clone()).collect(),
                },
                Action::CreatePlaylist { name, description, public } => {
                    assert_eq!(description, "Automatically synced Tidal playlist");
                    assert!(public);
                    assert!(name.ends_with(" [TIDAL]"));
                    self.creates += 1;
                    Event::Created { dest_id: "dest1".to_string() }
                }
                Action::FetchMembership { dest_id } => {
                    assert_eq!(dest_id, "dest1");
                    self.membership_gets += 1;
                    Event::Membership { isrcs: self.dest.clone() }
                }
                Action::Search { isrc } => {
                    self.searches.push(isrc.clone());
                    Event::Searched { candidates: self.found.get(&isrc).map(|u| vec![Some(u.clone())]).unwrap_or_default() }
                }
                Action::AddTracks { dest_id, uris } => {
                    assert_eq!(dest_id, "dest1");
                    self.adds += 1;
                    for u in &uris {
                        self.dest.push(u.trim_start_matches("uri:").to_string());
                    }
                    self.added_uris.extend(uris);
                    Event::Added
                }
            };
            step = sync.step(ledger, event);
        }
        sync
    }
}

fn summary(id: &str, name: &str, modified: Option<&str>, url: &str) -> PlaylistSummary {
    PlaylistSummary::from_fields(
        Some(id.to_string()),
        Some(name.to_string()),
        modified.map(|s| s.to_string()),
        Some(url.to_string()),
    )
}

fn world_with_two_tracks() -> World {
    let mut w = World::new();
    w.track("t1", "X1", true);
    w.track("t2", "X2", true);
    w.page("/playlists/abc/items", &["t1", "t2"], None);
    w
}

fn budget() -> RateBudget {
    RateBudget::from_headers(Some("100"), Some("1"))
}

const MODIFIED: &str = "2024-01-01T00:00:00.000Z";

#[test]
fn first_run_creates_mirror_and_records_ledger() {
    let mut w = world_with_two_tracks();
    let mut ledger = Ledger::new();
    let sync = w.run(&mut ledger, summary("abc", "Morning Mix", Some(MODIFIED), "/playlists/abc/items"), budget());
    assert_eq!(w.creates, 1);
    assert_eq!(w.searches, vec!["X1".to_string(), "X2".to_string()]);
    assert_eq!(w.adds, 1);
    assert_eq!(w.added_uris, vec!["uri:X1".to_string(), "uri:X2".to_string()]);
    assert!(ledger.playlist_exists("abc"));
    assert_eq!(ledger.get_playlist_last_modified("abc"), Some(MODIFIED.to_string()));
    assert_eq!(ledger.get_spotify_playlist_id("abc"), Some("dest1".to_string()));
    assert_eq!(ledger.get_tracks("abc"), Some(vec!["X1".to_string(), "X2".to_string()]));
    assert_eq!(sync.phase, Phase::Done);
    assert!(matches!(sync.outcome, Some(Outcome::Synced { intact: false, added: 2 })));
    assert_eq!(w.writes, 1);
}

#[test]
fn rerun_unchanged_makes_no_destination_writes() {
    let mut w = world_with_two_tracks();
    let mut ledger = Ledger::new();
    w.run(&mut ledger, summary("abc", "Morning Mix", Some(MODIFIED), "/playlists/abc/items"), budget());
    w.reset_counts();
    let sync = w.run(&mut ledger, summary("abc", "Morning Mix", Some(MODIFIED), "/playlists/abc/items"), budget());
    assert_eq!(w.creates, 0);
    assert_eq!(w.adds, 0);
    assert_eq!(w.membership_gets, 1);
    assert_eq!(w.page_fetches, 0);
    assert!(w.searches.is_empty());
    assert_eq!(sync.queue.len(), 0);
    assert!(matches!(sync.outcome, Some(Outcome::Synced { intact: true, added: 0 })));
}

#[test]
fn unresolvable_track_is_blacklisted_and_sync_completes() {
    let mut w = world_with_two_tracks();
    let mut ledger = Ledger::new();
    w.run(&mut ledger, summary("abc", "Morning Mix", Some(MODIFIED), "/playlists/abc/items"), budget());
    w.reset_counts();
    w.track("t3", "X3", false);
    w.page("/playlists/abc/items", &["t1", "t2", "t3"], None);
    let sync = w.run(&mut ledger, summary("abc", "Morning Mix", Some("2024-02-01T00:00:00.000Z"), "/playlists/abc/items"), budget());
    assert_eq!(w.creates, 0);
    assert_eq!(w.searches, vec!["X3".to_string()]);
    assert_eq!(w.adds, 0);
    assert!(ledger.is_blacklisted("X3"));
    assert_eq!(ledger.get_tracks("abc").unwrap().len(), 3);
    assert_eq!(ledger.get_playlist_last_modified("abc"), Some("2024-02-01T00:00:00.000Z".to_string()));
    assert!(matches!(sync.outcome, Some(Outcome::Synced { intact: false, added: 0 })));
}

#[test]
fn blacklisted_identifier_is_never_searched_again() {
    let mut w = world_with_two_tracks();
    w.track("t3", "X3", false);
    w.page("/playlists/abc/items", &["t1", "t2", "t3"], None);
    let mut ledger = Ledger::new();
    w.run(&mut ledger, summary("abc", "Morning Mix", Some(MODIFIED), "/playlists/abc/items"), budget());
    assert_eq!(w.searches, vec!["X1".to_string(), "X2".to_string(), "X3".to_string()]);
    assert!(ledger.is_blacklisted("X3"));
    for modified in ["2024-03-01T00:00:00.000Z", "2024-04-01T00:00:00.000Z"] {
        w.reset_counts();
        w.run(&mut ledger, summary("abc", "Morning Mix", Some(modified), "/playlists/abc/items"), budget());
        assert!(w.searches.is_empty());
        assert_eq!(w.adds, 0);
    }
}

#[test]
fn pagination_assembles_every_page_once_across_waits() {
    let mut w = World::new();
    w.track("a", "A", true);
    w.track("b", "B", true);
    w.track("c", "C", true);
    w.track("d", "D", true);
    w.track("e", "E", true);
    w.page("/items/1", &["a", "b"], Some("/items/2"));
    w.page("/items/2", &[], Some("/items/3"));
    w.page("/items/3", &["c", "d", "e"], None);
    w.remaining = Some("0".to_string());
    let mut ledger = Ledger::new();
    let sync = w.run(&mut ledger, summary("pl", "Paged", Some(MODIFIED), "/items/1"), RateBudget::from_headers(Some("0"), Some("1")));
    assert_eq!(w.page_fetches, 3);
    assert!(w.waits >= 3);
    assert_eq!(sync.tracks, vec!["A", "B", "C", "D", "E"]);
    assert_eq!(ledger.get_tracks("pl").unwrap().len(), 2 + 0 + 3);
}

#[test]
fn watermark_skips_page_fetches() {
    let mut w = world_with_two_tracks();
    let mut ledger = Ledger::new();
    ledger.insert_playlist("abc", "dest1", "Morning Mix", "2024-06-01T00:00:00.000Z").unwrap();
    ledger.insert_track("abc", "X1").unwrap();
    let (sync, step) = PlaylistSync::start(summary("abc", "Morning Mix", Some(MODIFIED), "/playlists/abc/items"), budget(), &ledger);
    assert_eq!(sync.phase, Phase::Membership);
    assert!(matches!(step.action, Action::FetchMembership { ref dest_id } if dest_id == "dest1"));
    let _ = w.run(&mut ledger, summary("abc", "Morning Mix", Some(MODIFIED), "/playlists/abc/items"), budget());
    assert_eq!(w.page_fetches, 0);
}

#[test]
fn newer_source_is_fetched_again() {
    let mut ledger = Ledger::new();
    ledger.insert_playlist("abc", "dest1", "Morning Mix", "2023-12-31T23:59:59.999Z").unwrap();
    let (sync, step) = PlaylistSync::start(summary("abc", "Morning Mix", Some(MODIFIED), "/playlists/abc/items"), budget(), &ledger);
    assert_eq!(sync.phase, Phase::Paging);
    assert!(matches!(step.action, Action::FetchPage { ref url } if url == "/playlists/abc/items"));
}

#[test]
fn unreadable_source_time_rejects_playlist() {
    let ledger = Ledger::new();
    let (sync, step) = PlaylistSync::start(summary("abc", "Morning Mix", Some("yesterday"), "/playlists/abc/items"), budget(), &ledger);
    assert!(matches!(step.action, Action::Finish));
    assert!(matches!(sync.outcome, Some(Outcome::Rejected)));
}

#[test]
fn unreadable_watermark_fetches_again() {
    let mut ledger = Ledger::new();
    ledger.insert_playlist("abc", "dest1", "Morning Mix", "").unwrap();
    let (sync, _) = PlaylistSync::start(summary("abc", "Morning Mix", Some(MODIFIED), "/playlists/abc/items"), budget(), &ledger);
    assert_eq!(sync.phase, Phase::Paging);
}

#[test]
fn spent_budget_waits_before_first_page() {
    let ledger = Ledger::new();
    let (sync, step) = PlaylistSync::start(summary("n", "N", None, "/n/items"), RateBudget::from_headers(Some("1"), Some("5")), &ledger);
    assert_eq!(sync.phase, Phase::Waiting);
    assert!(matches!(step.action, Action::Wait { seconds: 3 }));
}

#[test]
fn failure_ends_only_that_playlist() {
    let mut ledger = Ledger::new();
    let (mut sync, _) = PlaylistSync::start(summary("abc", "Morning Mix", Some(MODIFIED), "/playlists/abc/items"), budget(), &ledger);
    let step = sync.step(&mut ledger, Event::Failed { reason: "HTTP 500".to_string() });
    assert!(matches!(step.action, Action::Finish));
    assert!(matches!(sync.outcome, Some(Outcome::Failed { ref reason }) if reason == "HTTP 500"));
    assert!(!ledger.playlist_exists("abc"));
    let mut w = world_with_two_tracks();
    w.run(&mut ledger, summary("def", "Evening Mix", Some(MODIFIED), "/playlists/abc/items"), sync.budget);
    assert!(ledger.playlist_exists("def"));
}

#[test]
fn unexpected_event_is_out_of_order() {
    let mut ledger = Ledger::new();
    let (mut sync, _) = PlaylistSync::start(summary("abc", "Morning Mix", Some(MODIFIED), "/playlists/abc/items"), budget(), &ledger);
    let step = sync.step(&mut ledger, Event::Added);
    assert!(matches!(step.action, Action::Finish));
    assert!(matches!(sync.outcome, Some(Outcome::OutOfOrder)));
    let again = sync.step(&mut ledger, Event::Waited);
    assert!(matches!(again.action, Action::Finish));
    assert!(matches!(sync.outcome, Some(Outcome::OutOfOrder)));
}

#[test]
fn mirror_created_twice_is_a_conflict() {
    let mut ledger = Ledger::new();
    let (mut sync, _) = PlaylistSync::start(summary("abc", "Morning Mix", None, "/playlists/abc/items"), budget(), &ledger);
    sync.step(&mut ledger, Event::Page { track_ids: vec![], next: None, remaining: None, requested: None });
    let step = sync.step(&mut ledger, Event::Details { isrcs: vec![] });
    assert!(matches!(step.action, Action::CreatePlaylist { ref name, .. } if name == "Morning Mix [TIDAL]"));
    ledger.insert_playlist("abc", "other", "Morning Mix", "").unwrap();
    let step = sync.step(&mut ledger, Event::Created { dest_id: "dest1".to_string() });
    assert!(matches!(step.action, Action::Finish));
    assert!(matches!(sync.outcome, Some(Outcome::Conflict)));
    assert_eq!(ledger.get_spotify_playlist_id("abc"), Some("other".to_string()));
}

#[test]
fn new_playlist_write_carries_record() {
    let mut ledger = Ledger::new();
    let (mut sync, _) = PlaylistSync::start(summary("abc", "Morning Mix", None, "/playlists/abc/items"), budget(), &ledger);
    sync.step(&mut ledger, Event::Page { track_ids: vec!["t1".to_string()], next: None, remaining: Some("7".to_string()), requested: None });
    assert_eq!(sync.budget.remaining, 7);
    sync.step(&mut ledger, Event::Details { isrcs: vec!["X1".to_string()] });
    let step = sync.step(&mut ledger, Event::Created { dest_id: "d9".to_string() });
    match step.write {
        Some(LedgerWrite::NewPlaylist { source_id, dest_id, name, last_modified, tracks }) => {
            assert_eq!(source_id, "abc");
            assert_eq!(dest_id, "d9");
            assert_eq!(name, "Morning Mix");
            assert_eq!(last_modified, "");
            assert_eq!(tracks, vec!["X1".to_string()]);
        }
        _ => panic!("expected a new playlist write"),
    }
    assert!(matches!(step.action, Action::FetchMembership { ref dest_id } if dest_id == "d9"));
}

#[test]
fn first_search_candidate_is_taken() {
    let mut ledger = Ledger::new();
    ledger.insert_playlist("abc", "d", "Morning Mix", MODIFIED).unwrap();
    ledger.insert_track("abc", "X1").unwrap();
    let (mut sync, _) = PlaylistSync::start(summary("abc", "Morning Mix", Some(MODIFIED), "/playlists/abc/items"), budget(), &ledger);
    let step = sync.step(&mut ledger, Event::Membership { isrcs: vec!["Z".to_string()] });
    assert!(matches!(step.action, Action::Search { ref isrc } if isrc == "X1"));
    let step = sync.step(&mut ledger, Event::Searched { candidates: vec![Some("first".to_string()), Some("second".to_string())] });
    assert!(matches!(step.action, Action::AddTracks { ref uris, .. } if uris == &vec!["first".to_string()]));
    let step = sync.step(&mut ledger, Event::Added);
    assert!(matches!(step.action, Action::Finish));
    assert!(matches!(sync.outcome, Some(Outcome::Synced { intact: false, added: 1 })));
}

#[test]
fn candidate_without_reference_blacklists() {
    let mut ledger = Ledger::new();
    ledger.insert_playlist("abc", "d", "Morning Mix", MODIFIED).unwrap();
    ledger.insert_track("abc", "X1").unwrap();
    let (mut sync, _) = PlaylistSync::start(summary("abc", "Morning Mix", Some(MODIFIED), "/playlists/abc/items"), budget(), &ledger);
    sync.step(&mut ledger, Event::Membership { isrcs: vec![] });
    let step = sync.step(&mut ledger, Event::Searched { candidates: vec![None, Some("later".to_string())] });
    assert!(matches!(step.write, Some(LedgerWrite::Blacklisted { ref isrc }) if isrc == "X1"));
    assert!(matches!(step.action, Action::Finish));
    assert!(ledger.is_blacklisted("X1"));
}

#[test]
fn summary_fields_default_to_empty() {
    let s = PlaylistSummary::from_fields(None, None, None, None);
    assert_eq!(s.id, "");
    assert_eq!(s.name, "");
    assert_eq!(s.last_updated, None);
    assert_eq!(s.items_url, "");
}

#[test]
fn rerun_without_time_makes_no_destination_writes() {
    let mut w = world_with_two_tracks();
    let mut ledger = Ledger::new();
    w.run(&mut ledger, summary("abc", "Morning Mix", None, "/playlists/abc/items"), budget());
    assert_eq!(w.creates, 1);
    w.reset_counts();
    let sync = w.run(&mut ledger, summary("abc", "Morning Mix", None, "/playlists/abc/items"), budget());
    assert_eq!(w.page_fetches, 1);
    assert_eq!(w.creates, 0);
    assert_eq!(w.adds, 0);
    assert!(w.searches.is_empty());
    assert_eq!(w.writes, 1);
    assert!(matches!(sync.outcome, Some(Outcome::Synced { intact: true, added: 0 })));
}

#[test]
fn resolved_references_are_added_once_in_order() {
    let mut w = world_with_two_tracks();
    w.track("t3", "X3", false);
    w.page("/playlists/abc/items", &["t1", "t2", "t3"], None);
    let mut ledger = Ledger::new();
    ledger.insert_blacklist("Z0");
    let sync = w.run(&mut ledger, summary("abc", "Morning Mix", Some(MODIFIED), "/playlists/abc/items"), budget());
    assert_eq!(w.searches, vec!["X1".to_string(), "X2".to_string(), "X3".to_string()]);
    assert_eq!(w.adds, 1);
    assert_eq!(w.added_uris, vec!["uri:X1".to_string(), "uri:X2".to_string()]);
    assert!(ledger.is_blacklisted("X3"));
    assert!(ledger.is_blacklisted("Z0"));
    assert!(!ledger.is_blacklisted("X1"));
    assert!(!ledger.is_blacklisted("X2"));
    assert!(matches!(sync.outcome, Some(Outcome::Synced { intact: false, added: 2 })));
}
