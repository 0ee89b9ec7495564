use now_playing::media::{
    file_url_to_path, has_valid_percent_encoding, is_mpris_owner_change,
    is_relevant_properties_change, now_playing, snapshot_has_changed, find_bus_name, Labels,
    command_target, require_selection, CommandError,
    MonitorAction, MonitorEvent, MonitorState, TrackMetadata, MPRIS_PLAYER_INTERFACE,
};
use now_playing::model::{MediaSnapshot, NowPlayingData, PlaybackState, PlayerInfo};

fn changed_properties(names: &[&str]) -> Vec<String> {
    names.iter().map(|name| (*name).to_owned()).collect()
}

fn labels() -> Labels {
    Labels {
        nothing_playing: "Nothing playing".to_owned(),
        unknown_title: "Unknown title".to_owned(),
        unknown_artist: "Unknown artist".to_owned(),
    }
}

fn sample_snapshot(id: &str) -> MediaSnapshot {
    MediaSnapshot {
        players: vec![PlayerInfo {
            id: id.to_owned(),
            identity: id.to_owned(),
            now_playing: NowPlayingData::nothing_playing("Nothing playing".to_owned()),
        }],
    }
}

#[test]
fn refreshes_for_displayed_player_properties() {
    for property in ["Metadata", "PlaybackStatus"] {
        assert!(is_relevant_properties_change(
            MPRIS_PLAYER_INTERFACE,
            &changed_properties(&[property]),
            &[],
        ));
        assert!(is_relevant_properties_change(
            MPRIS_PLAYER_INTERFACE,
            &[],
            &[property.to_owned()],
        ));
    }
}

#[test]
fn ignores_unrelated_property_changes() {
    assert!(!is_relevant_properties_change(
        MPRIS_PLAYER_INTERFACE,
        &changed_properties(&["Volume", "Shuffle", "Position"]),
        &[],
    ));
    assert!(!is_relevant_properties_change(
        "org.mpris.MediaPlayer2",
        &changed_properties(&["Metadata"]),
        &[],
    ));
}

#[test]
fn refreshes_only_for_mpris_player_owner_changes() {
    assert!(is_mpris_owner_change("org.mpris.MediaPlayer2.spotify", "", ":1.42"));
    assert!(is_mpris_owner_change("org.mpris.MediaPlayer2.spotify", ":1.42", ""));
    assert!(is_mpris_owner_change("org.mpris.MediaPlayer2.spotify", ":1.42", ":1.43"));
    assert!(!is_mpris_owner_change("org.example.Application", "", ":1.42"));
    assert!(!is_mpris_owner_change("org.mpris.MediaPlayer2.spotify", ":1.42", ":1.42"));
}

#[test]
fn suppresses_identical_snapshots() {
    let snapshot = MediaSnapshot::default();

    assert!(snapshot_has_changed(&None, &snapshot));
    assert!(!snapshot_has_changed(&Some(snapshot.clone()), &snapshot));
}

#[test]
fn parses_local_file_urls() {
    assert_eq!(
        file_url_to_path("file:///home/user/Music/Album%20Art.png"),
        Some("/home/user/Music/Album Art.png".as_bytes().to_vec())
    );
    assert_eq!(
        file_url_to_path("file://localhost/home/user/M%C3%BAsica.png"),
        Some("/home/user/Música.png".as_bytes().to_vec())
    );
}

#[test]
fn parses_unescaped_unicode_file_urls() {
    assert_eq!(
        file_url_to_path("file:///home/user/Música/Portada.png"),
        Some("/home/user/Música/Portada.png".as_bytes().to_vec())
    );
}

#[test]
fn rejects_remote_non_file_and_malformed_urls() {
    assert_eq!(file_url_to_path("https://example.com/cover.png"), None);
    assert_eq!(file_url_to_path("file://example.com/home/user/cover.png"), None);
    assert_eq!(file_url_to_path("file:///home/user/bad%2.png"), None);
    assert_eq!(file_url_to_path("file:///home/user/bad%ZZ.png"), None);
}

#[test]
fn percent_encoding_check_requires_two_hex_digits() {
    assert!(has_valid_percent_encoding("plain"));
    assert!(has_valid_percent_encoding("a%20b%Ff"));
    assert!(!has_valid_percent_encoding("%"));
    assert!(!has_valid_percent_encoding("ab%2"));
    assert!(!has_valid_percent_encoding("%g0"));
}

#[test]
fn snapshots_with_other_players_count_as_changed() {
    let first = sample_snapshot("org.mpris.MediaPlayer2.one");
    let second = sample_snapshot("org.mpris.MediaPlayer2.two");
    assert!(snapshot_has_changed(&Some(first.clone()), &second));
    assert!(!snapshot_has_changed(&Some(first.clone()), &first));
}

#[test]
fn shows_title_and_first_artist() {
    let shown = now_playing(
        PlaybackState::Paused,
        Some(TrackMetadata {
            title: Some("Song".to_owned()),
            artists: Some(vec!["First".to_owned(), "Second".to_owned()]),
            art_url: Some("file:///art/cover%201.png".to_owned()),
            is_empty: false,
        }),
        &labels(),
    );
    assert_eq!(shown.text, "Song - First");
    assert_eq!(shown.title, "Song");
    assert_eq!(shown.artist, "First");
    assert_eq!(shown.state, PlaybackState::Paused);
    assert_eq!(shown.album_art_path, Some(b"/art/cover 1.png".to_vec()));
    assert!(shown.has_usable_metadata);
}

#[test]
fn missing_title_and_artist_use_labels() {
    let shown = now_playing(
        PlaybackState::Playing,
        Some(TrackMetadata {
            title: None,
            artists: Some(Vec::new()),
            art_url: Some("https://example.com/cover.png".to_owned()),
            is_empty: false,
        }),
        &labels(),
    );
    assert_eq!(shown.text, "Unknown title - Unknown artist");
    assert_eq!(shown.album_art_path, None);
    assert!(shown.has_usable_metadata);
}

#[test]
fn empty_or_unreadable_metadata_shows_placeholder() {
    for metadata in [
        None,
        Some(TrackMetadata { title: Some("x".to_owned()), artists: None, art_url: None, is_empty: true }),
    ] {
        let shown = now_playing(PlaybackState::Playing, metadata, &labels());
        assert_eq!(shown.text, "Nothing playing");
        assert_eq!(shown.title, "Nothing playing");
        assert_eq!(shown.artist, "");
        assert_eq!(shown.state, PlaybackState::Playing);
        assert!(!shown.has_usable_metadata);
    }
}

#[test]
fn finds_selected_bus_name() {
    let names = vec!["org.mpris.MediaPlayer2.a".to_owned(), "org.mpris.MediaPlayer2.b".to_owned()];
    assert_eq!(find_bus_name(&names, "org.mpris.MediaPlayer2.b"), Some(1));
    assert_eq!(find_bus_name(&names, "org.mpris.MediaPlayer2.c"), None);
}

#[test]
fn monitor_sends_only_changed_scans() {
    let mut monitor = MonitorState::new();
    assert!(matches!(monitor.start(), MonitorAction::Connect));
    let scan = sample_snapshot("org.mpris.MediaPlayer2.one");
    match monitor.step(MonitorEvent::Scanned(scan.clone())) {
        MonitorAction::Send(sent) => assert_eq!(sent, scan),
        other => panic!("expected a send, got {other:?}"),
    }
    assert!(matches!(monitor.step(MonitorEvent::Sent), MonitorAction::Wait));
    assert!(matches!(monitor.step(MonitorEvent::Scanned(scan.clone())), MonitorAction::Wait));
    assert!(matches!(monitor.step(MonitorEvent::RefreshRequested), MonitorAction::Scan));
    assert!(matches!(monitor.step(MonitorEvent::NoRefresh), MonitorAction::Wait));
    assert!(matches!(monitor.step(MonitorEvent::EventsFailed), MonitorAction::SleepThenConnect));
    assert!(matches!(monitor.step(MonitorEvent::ConnectFailed), MonitorAction::SleepThenConnect));
    assert!(matches!(monitor.step(MonitorEvent::ScanFailed), MonitorAction::SleepThenConnect));
    assert!(matches!(monitor.step(MonitorEvent::OutputClosed), MonitorAction::Stop));
    assert!(matches!(monitor.step(MonitorEvent::SendFailed), MonitorAction::Stop));
}

fn snapshot_with_art(path: &[u8]) -> MediaSnapshot {
    let mut snapshot = sample_snapshot("org.mpris.MediaPlayer2.one");
    snapshot.players[0].now_playing.album_art_path = Some(path.to_vec());
    snapshot
}

#[test]
fn art_paths_are_compared_as_paths() {
    assert!(!snapshot_has_changed(&Some(snapshot_with_art(b"/a")), &snapshot_with_art(b"/a/")));
    assert!(!snapshot_has_changed(&Some(snapshot_with_art(b"/a//b")), &snapshot_with_art(b"/a/b")));
    assert!(snapshot_has_changed(&Some(snapshot_with_art(b"/a")), &snapshot_with_art(b"/b")));
}

#[test]
fn monitor_does_not_resend_the_same_path() {
    let mut monitor = MonitorState::new();
    assert!(matches!(monitor.step(MonitorEvent::Scanned(snapshot_with_art(b"/a"))), MonitorAction::Send(_)));
    assert!(matches!(monitor.step(MonitorEvent::Sent), MonitorAction::Wait));
    assert!(matches!(monitor.step(MonitorEvent::Scanned(snapshot_with_art(b"/a/"))), MonitorAction::Wait));
}

#[test]
fn commands_need_a_listed_selection() {
    assert_eq!(require_selection(None), Err(CommandError::NoPlayerSelected));
    assert_eq!(require_selection(Some("x")), Ok("x"));
    assert_eq!(CommandError::NoPlayerSelected.message(), "no media player is selected");
    let names = vec!["org.mpris.MediaPlayer2.a".to_owned()];
    assert_eq!(command_target("org.mpris.MediaPlayer2.a", &names), Ok(0));
    let error = command_target("org.mpris.MediaPlayer2.b", &names).unwrap_err();
    assert_eq!(
        error.message(),
        "selected MPRIS player disappeared: org.mpris.MediaPlayer2.b"
    );
}
