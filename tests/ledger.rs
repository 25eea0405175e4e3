use playlist_sync::diff::missing_tracks;
use playlist_sync::ledger::{Ledger, LedgerError};

fn strings(v: &[&str]) -> Vec<String> {
    v.iter().map(|s| s.to_string()).collect()
}

#[test]
fn empty_ledger_knows_nothing() {
    let ledger = Ledger::new();
    assert!(!ledger.playlist_exists("abc"));
    assert_eq!(ledger.get_spotify_playlist_id("abc"), None);
    assert_eq!(ledger.get_playlist_last_modified("abc"), None);
    assert_eq!(ledger.get_tracks("abc"), None);
    assert!(!ledger.is_blacklisted("X1"));
}

#[test]
fn insert_playlist_once_per_source_id() {
    let mut ledger = Ledger::new();
    assert_eq!(ledger.insert_playlist("abc", "d1", "Morning Mix", "2024-01-01T00:00:00.000Z"), Ok(()));
    assert_eq!(ledger.insert_playlist("abc", "d2", "Morning Mix", "x"), Err(LedgerError::DuplicatePlaylist));
    assert_eq!(ledger.get_spotify_playlist_id("abc"), Some("d1".to_string()));
    assert_eq!(ledger.get_tracks("abc"), Some(vec![]));
}

#[test]
fn tracks_need_a_playlist() {
    let mut ledger = Ledger::new();
    assert_eq!(ledger.insert_track("abc", "X1"), Err(LedgerError::UnknownPlaylist));
    assert_eq!(ledger.replace_tracks("abc", strings(&["X1"])), Err(LedgerError::UnknownPlaylist));
    assert_eq!(ledger.update_playlist("abc", "P", "t"), Err(LedgerError::UnknownPlaylist));
    ledger.insert_playlist("abc", "d1", "Morning Mix", "t0").unwrap();
    ledger.insert_track("abc", "X1").unwrap();
    ledger.insert_track("abc", "X2").unwrap();
    assert_eq!(ledger.get_tracks("abc"), Some(strings(&["X1", "X2"])));
    ledger.replace_tracks("abc", strings(&["X3"])).unwrap();
    assert_eq!(ledger.get_tracks("abc"), Some(strings(&["X3"])));
}

#[test]
fn update_keeps_destination_and_tracks() {
    let mut ledger = Ledger::new();
    ledger.insert_playlist("abc", "d1", "Morning Mix", "t0").unwrap();
    ledger.insert_track("abc", "X1").unwrap();
    ledger.update_playlist("abc", "Renamed", "t1").unwrap();
    assert_eq!(ledger.get_spotify_playlist_id("abc"), Some("d1".to_string()));
    assert_eq!(ledger.get_playlist_last_modified("abc"), Some("t1".to_string()));
    assert_eq!(ledger.get_tracks("abc"), Some(strings(&["X1"])));
}

#[test]
fn playlists_are_kept_apart() {
    let mut ledger = Ledger::new();
    ledger.insert_playlist("a", "da", "A", "t").unwrap();
    ledger.insert_playlist("b", "db", "B", "t").unwrap();
    ledger.insert_track("b", "X").unwrap();
    assert_eq!(ledger.get_tracks("a"), Some(vec![]));
    assert_eq!(ledger.get_tracks("b"), Some(strings(&["X"])));
    assert_eq!(ledger.get_spotify_playlist_id("b"), Some("db".to_string()));
}

#[test]
fn blacklist_is_global_and_idempotent() {
    let mut ledger = Ledger::new();
    ledger.insert_blacklist("X1");
    ledger.insert_blacklist("X1");
    assert!(ledger.is_blacklisted("X1"));
    assert!(!ledger.is_blacklisted("X2"));
}

#[test]
fn integrity_compares_in_order_without_blacklisted() {
    let mut ledger = Ledger::new();
    assert_eq!(ledger.check_playlist_integrity("abc", &vec![]), Err(LedgerError::UnknownPlaylist));
    ledger.insert_playlist("abc", "d1", "Morning Mix", "t").unwrap();
    ledger.replace_tracks("abc", strings(&["X1", "X2", "X3"])).unwrap();
    ledger.insert_blacklist("X2");
    assert_eq!(ledger.expected_tracks("abc"), Some(strings(&["X1", "X3"])));
    assert_eq!(ledger.check_playlist_integrity("abc", &strings(&["X1", "X3"])), Ok(true));
    assert_eq!(ledger.check_playlist_integrity("abc", &strings(&["X3", "X1"])), Ok(false));
    assert_eq!(ledger.check_playlist_integrity("abc", &strings(&["X1", "X2", "X3"])), Ok(false));
}

#[test]
fn diff_is_expected_minus_actual() {
    let expected = strings(&["X1", "X2", "X3"]);
    let actual = strings(&["X2", "Y9"]);
    assert_eq!(missing_tracks(&expected, &actual), strings(&["X1", "X3"]));
    assert_eq!(missing_tracks(&expected, &expected), Vec::<String>::new());
    assert_eq!(missing_tracks(&vec![], &actual), Vec::<String>::new());
    assert_eq!(missing_tracks(&expected, &vec![]), expected);
}
