use spotify_tui_rs::auth::{Exchange, Handshake, Reply};
use spotify_tui_rs::ids::{catalog_id, playable_track_uri, playlist_fetch_id};
use spotify_tui_rs::session::{
    compose_display_name, join_names, step_cursor, track_entries, Command, DeviceEntry, Direction,
    FetchedItem, Key, Panel, PlaybackError, PlaylistEntry, Session,
};
use spotify_tui_rs::view::layout;

fn playlist(name: &str, id: &str) -> PlaylistEntry {
    PlaylistEntry { name: name.to_string(), id: id.to_string() }
}

fn track(title: &str, artists: &[&str], id: &str) -> FetchedItem {
    FetchedItem::Track {
        title: title.to_string(),
        artists: artists.iter().map(|a| a.to_string()).collect(),
        id: Some(id.to_string()),
    }
}

fn two_playlists() -> Session {
    Session::new(
        vec![
            playlist("Chill", "spotify:playlist:chill1"),
            playlist("Party", "spotify:playlist:party2"),
        ],
        vec![],
    )
}

#[test]
fn next_wraps_to_zero_after_last() {
    assert_eq!(step_cursor(Some(0), 3, Direction::Next), Some(1));
    assert_eq!(step_cursor(Some(1), 3, Direction::Next), Some(2));
    assert_eq!(step_cursor(Some(2), 3, Direction::Next), Some(0));
}

#[test]
fn previous_wraps_to_last_from_zero() {
    assert_eq!(step_cursor(Some(0), 3, Direction::Previous), Some(2));
    assert_eq!(step_cursor(Some(2), 3, Direction::Previous), Some(1));
    assert_eq!(step_cursor(Some(0), 1, Direction::Previous), Some(0));
}

#[test]
fn session_next_playlist_cycles() {
    let mut s = two_playlists();
    assert_eq!(s.playlist_cursor, Some(0));
    s.next_playlist();
    assert_eq!(s.playlist_cursor, Some(1));
    s.next_playlist();
    assert_eq!(s.playlist_cursor, Some(0));
    s.previous_playlist();
    assert_eq!(s.playlist_cursor, Some(1));
}

#[test]
fn empty_collections_keep_cursor_none() {
    let mut s = Session::new(vec![], vec![]);
    assert_eq!(s.playlist_cursor, None);
    assert_eq!(s.track_cursor, None);
    s.next_playlist();
    s.previous_playlist();
    s.next_track();
    s.previous_track();
    assert_eq!(s.playlist_cursor, None);
    assert_eq!(s.track_cursor, None);
    assert_eq!(step_cursor(None, 0, Direction::Next), None);
    assert_eq!(s.selected_playlist_id, None);
    assert!(matches!(s.handle_key(Key::Enter, true), Command::Nothing));
}

#[test]
fn replacing_tracks_resets_cursor() {
    let mut s = two_playlists();
    s.finish_track_fetch(&vec![track("A", &["X"], "a1"), track("B", &["Y"], "b2")]);
    s.next_track();
    assert_eq!(s.track_cursor, Some(1));
    s.finish_track_fetch(&vec![track("C", &["Z"], "c3"), track("D", &["W"], "d4")]);
    assert_eq!(s.track_cursor, Some(0));
    s.next_track();
    let fetch = s.select_playlist("spotify:playlist:empty0".to_string());
    assert_eq!(fetch.as_deref(), Some("empty0"));
    assert_eq!(s.tracks.len(), 0);
    assert_eq!(s.track_cursor, None);
    s.finish_track_fetch(&vec![]);
    assert_eq!(s.track_cursor, None);
}

#[test]
fn replacing_playlists_resets_cursor_and_selection() {
    let mut s = two_playlists();
    s.next_playlist();
    s.set_playlists(vec![playlist("Solo", "solo9")]);
    assert_eq!(s.playlist_cursor, Some(0));
    assert_eq!(s.selected_playlist_id.as_deref(), Some("solo9"));
    s.set_playlists(vec![]);
    assert_eq!(s.playlist_cursor, None);
    assert_eq!(s.selected_playlist_id, None);
}

#[test]
fn select_playlist_refetches_once_and_replaces_tracks() {
    let mut s = two_playlists();
    s.finish_track_fetch(&vec![track("Old", &["Band"], "old1")]);
    let fetch = s.select_playlist("spotify:playlist:party2".to_string());
    assert_eq!(fetch.as_deref(), Some("party2"));
    assert_eq!(s.selected_playlist_id.as_deref(), Some("spotify:playlist:party2"));
    assert!(s.tracks.is_empty());
    s.finish_track_fetch(&vec![track("New", &["Act"], "new1")]);
    assert_eq!(s.tracks.len(), 1);
    assert_eq!(s.tracks[0].name, "New - Act");
    assert_eq!(s.tracks[0].uri, "spotify:track:new1");
}

#[test]
fn malformed_playlist_id_is_a_no_op_fetch() {
    let mut s = two_playlists();
    s.finish_track_fetch(&vec![track("Old", &["Band"], "old1")]);
    let fetch = s.select_playlist("spotify:playlist:bad-id!".to_string());
    assert_eq!(fetch, None);
    assert!(s.tracks.is_empty());
    assert_eq!(s.track_cursor, None);
}

#[test]
fn no_selected_playlist_fetches_nothing() {
    let mut s = Session::new(vec![], vec![]);
    assert_eq!(s.begin_track_fetch(), None);
}

#[test]
fn composite_and_bare_ids() {
    assert_eq!(catalog_id("a:b:xyz123"), "xyz123");
    assert_eq!(catalog_id("xyz123"), "xyz123");
    assert_eq!(catalog_id("a:b:"), "");
    assert_eq!(catalog_id(""), "");
}

#[test]
fn playlist_fetch_id_checks_characters() {
    assert_eq!(playlist_fetch_id("spotify:playlist:37i9dQZF").as_deref(), Some("37i9dQZF"));
    assert_eq!(playlist_fetch_id("37i9dQZF").as_deref(), Some("37i9dQZF"));
    assert_eq!(playlist_fetch_id("spotify:playlist:a/b"), None);
}

#[test]
fn playable_uri_resolves_catalog_id() {
    assert_eq!(playable_track_uri("spotify:track:abc999").as_deref(), Some("spotify:track:abc999"));
    assert_eq!(playable_track_uri("abc999").as_deref(), Some("spotify:track:abc999"));
    assert_eq!(playable_track_uri("spotify:track:ab c"), None);
    let s = two_playlists();
    let req = s.play_request("spotify:track:abc999").unwrap();
    assert_eq!(req.uri, "spotify:track:abc999");
    assert_eq!(catalog_id(&req.uri), "abc999");
    assert_eq!(req.device_id, None);
    assert!(matches!(s.play_request("spotify:track:x.y"), Err(PlaybackError::InvalidUri)));
}

#[test]
fn play_without_device_surfaces_playback_error() {
    let mut s = two_playlists();
    assert_eq!(s.selected_device_id, None);
    assert_eq!(s.playlists.len(), 2);
    assert_eq!(s.playlists[0].name, "Chill");
    assert_eq!(s.playlists[1].name, "Party");
    s.finish_track_fetch(&vec![track("Song", &["Singer"], "abc999")]);
    assert!(matches!(s.handle_key(Key::Tab, true), Command::Nothing));
    match s.handle_key(Key::Enter, true) {
        Command::Play(req) => {
            assert_eq!(req.uri, "spotify:track:abc999");
            assert_eq!(req.device_id, None);
        }
        other => panic!("expected a play request, got {:?}", other),
    }
    s.record_playback(false);
    assert_eq!(s.last_error, Some(PlaybackError::Rejected));
    assert!(s.running);
    assert_eq!(s.track_cursor, Some(0));
}

#[test]
fn first_device_is_selected() {
    let s = Session::new(
        vec![],
        vec![
            DeviceEntry { id: Some("dev1".to_string()), name: "Laptop".to_string() },
            DeviceEntry { id: Some("dev2".to_string()), name: "Phone".to_string() },
        ],
    );
    assert_eq!(s.selected_device_id.as_deref(), Some("dev1"));
    let req = s.play_request("t1").unwrap();
    assert_eq!(req.device_id.as_deref(), Some("dev1"));
}

#[test]
fn tab_twice_restores_focus() {
    let mut s = two_playlists();
    assert_eq!(s.focus, Panel::Playlists);
    s.handle_key(Key::Tab, true);
    assert_eq!(s.focus, Panel::Tracks);
    s.handle_key(Key::Tab, true);
    assert_eq!(s.focus, Panel::Playlists);
}

#[test]
fn key_release_and_unbound_keys_are_ignored() {
    let mut s = two_playlists();
    assert!(matches!(s.handle_key(Key::Tab, false), Command::Nothing));
    assert_eq!(s.focus, Panel::Playlists);
    assert!(matches!(s.handle_key(Key::Char('x'), true), Command::Nothing));
    assert!(matches!(s.handle_key(Key::Other, true), Command::Nothing));
    assert!(s.running);
    assert!(matches!(s.handle_key(Key::Char('q'), true), Command::Quit));
    assert!(!s.running);
}

#[test]
fn failed_exchange_never_completes_handshake() {
    let mut h = Handshake::new();
    let (reply, out) = h.on_callback(Exchange::Failed);
    assert_eq!(reply, Reply::Failure);
    assert_eq!(reply.body(), "Failed to get token");
    assert!(out.is_none());
    assert!(h.pending);
}

#[test]
fn handshake_delivers_tokens_once() {
    let mut h = Handshake::new();
    let (reply, out) = h.on_callback(Exchange::Granted {
        access_token: "acc".to_string(),
        refresh_token: Some("ref".to_string()),
    });
    assert_eq!(reply.body(), "Authentication successful! You can close this window.");
    let t = out.unwrap();
    assert_eq!(t.access_token, "acc");
    assert_eq!(t.refresh_token, "ref");
    assert!(!h.pending);
    let (_, again) = h.on_callback(Exchange::Granted {
        access_token: "acc2".to_string(),
        refresh_token: Some("ref2".to_string()),
    });
    assert!(again.is_none());
}

#[test]
fn handshake_without_refresh_token_delivers_nothing() {
    let mut h = Handshake::new();
    let (reply, out) = h.on_callback(Exchange::Granted { access_token: "a".to_string(), refresh_token: None });
    assert_eq!(reply, Reply::Failure);
    assert!(out.is_none());
    let (reply, out) = h.on_callback(Exchange::Empty);
    assert_eq!(reply, Reply::Success);
    assert!(out.is_none());
    assert!(h.pending);
}

#[test]
fn up_down_move_only_track_cursor_when_tracks_focused() {
    let mut s = two_playlists();
    s.finish_track_fetch(&vec![track("A", &["X"], "a1")]);
    s.handle_key(Key::Down, true);
    assert_eq!(s.playlist_cursor, Some(1));
    match s.handle_key(Key::Enter, true) {
        Command::FetchTracks(id) => assert_eq!(id, "party2"),
        other => panic!("expected a fetch, got {:?}", other),
    }
    assert_eq!(s.selected_playlist_id.as_deref(), Some("spotify:playlist:party2"));
    s.finish_track_fetch(&vec![
        track("Up", &["X"], "up1"),
        track("Mid", &["Y"], "mid2"),
        track("Low", &["Z"], "low3"),
    ]);
    s.handle_key(Key::Tab, true);
    assert_eq!(s.focus, Panel::Tracks);
    s.handle_key(Key::Down, true);
    assert_eq!(s.track_cursor, Some(1));
    assert_eq!(s.playlist_cursor, Some(1));
    s.handle_key(Key::Up, true);
    s.handle_key(Key::Up, true);
    assert_eq!(s.track_cursor, Some(2));
    assert_eq!(s.playlist_cursor, Some(1));
}

#[test]
fn display_names_join_artists() {
    assert_eq!(join_names(&vec![]), "");
    assert_eq!(join_names(&vec!["A".to_string()]), "A");
    assert_eq!(join_names(&vec!["A".to_string(), "B".to_string(), "C".to_string()]), "A, B, C");
    assert_eq!(
        compose_display_name(&"Song".to_string(), &vec!["A".to_string(), "B".to_string()]),
        "Song - A, B"
    );
}

#[test]
fn non_tracks_and_tracks_without_ids_are_omitted() {
    let items = vec![
        FetchedItem::Other,
        track("One", &["A"], "id1"),
        FetchedItem::Track { title: "Local".to_string(), artists: vec![], id: None },
        track("Two", &["B", "C"], "id2"),
        track("Bad", &["D"], "bad id"),
    ];
    let entries = track_entries(&items);
    assert_eq!(entries.len(), 2);
    assert_eq!(entries[0].name, "One - A");
    assert_eq!(entries[0].uri, "spotify:track:id1");
    assert_eq!(entries[1].name, "Two - B, C");
    assert_eq!(entries[1].uri, "spotify:track:id2");
}

#[test]
fn layout_follows_session() {
    let mut s = two_playlists();
    s.finish_track_fetch(&vec![track("A", &["X"], "a1")]);
    let l = layout(&s);
    assert_eq!(l.left.title, "Playlists");
    assert_eq!(l.left.rows, vec!["Chill".to_string(), "Party".to_string()]);
    assert_eq!(l.left.highlighted, Some(0));
    assert!(l.left.emphasized);
    assert_eq!(l.left.width_percent, 30);
    assert_eq!(l.right.title, "Tracks");
    assert_eq!(l.right.rows, vec!["A - X".to_string()]);
    assert!(!l.right.emphasized);
    assert_eq!(l.right.width_percent, 70);
    s.toggle_focus();
    let l = layout(&s);
    assert!(!l.left.emphasized);
    assert!(l.right.emphasized);
}
