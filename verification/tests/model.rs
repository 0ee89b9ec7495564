use now_playing::model::{
    AppModel, MediaSnapshot, NowPlayingData, PlaybackState, PlayerInfo, PopupPage,
};
use now_playing::settings::AppSettings;

const NOTHING_PLAYING: &str = "Nothing playing";

fn player(id: &str, state: PlaybackState, has_metadata: bool) -> PlayerInfo {
    PlayerInfo {
        id: id.to_owned(),
        identity: id.to_owned(),
        now_playing: NowPlayingData {
            text: id.to_owned(),
            title: id.to_owned(),
            artist: "Artist".to_owned(),
            state,
            album_art_path: None,
            has_usable_metadata: has_metadata,
        },
    }
}

fn snapshot(players: Vec<PlayerInfo>) -> MediaSnapshot {
    MediaSnapshot { players }
}

fn new_model(snapshot: MediaSnapshot) -> AppModel {
    AppModel::new(AppSettings::default(), snapshot, NOTHING_PLAYING.to_owned())
}

#[test]
fn selects_playing_player_before_other_players() {
    let model = new_model(snapshot(vec![
        player("paused", PlaybackState::Paused, true),
        player("playing", PlaybackState::Playing, true),
    ]));

    assert_eq!(model.selected_player.as_deref(), Some("playing"));
}

#[test]
fn selects_player_with_metadata_before_empty_player() {
    let model = new_model(snapshot(vec![
        player("empty", PlaybackState::Stopped, false),
        player("paused", PlaybackState::Paused, true),
    ]));

    assert_eq!(model.selected_player.as_deref(), Some("paused"));
    assert!(model.has_active_media());
}

#[test]
fn preserves_selection_until_player_disappears() {
    let mut model = new_model(snapshot(vec![
        player("one", PlaybackState::Playing, true),
        player("two", PlaybackState::Paused, true),
    ]));
    model.select_player("two".to_owned());
    model.apply_snapshot(snapshot(vec![
        player("one", PlaybackState::Playing, true),
        player("two", PlaybackState::Stopped, true),
    ]));
    assert_eq!(model.selected_player.as_deref(), Some("two"));

    model.apply_snapshot(snapshot(vec![player("one", PlaybackState::Paused, true)]));
    assert_eq!(model.selected_player.as_deref(), Some("one"));
}

#[test]
fn paused_and_stopped_tracks_remain_visible_with_metadata() {
    for state in [PlaybackState::Paused, PlaybackState::Stopped] {
        let model = new_model(snapshot(vec![player("track", state, true)]));
        assert!(model.has_active_media());
    }
}

#[test]
fn popup_page_has_only_one_active_value() {
    let mut model = new_model(MediaSnapshot::default());
    model.set_popup_page(PopupPage::PlayerList);
    assert_eq!(model.popup_page, PopupPage::PlayerList);
    model.set_popup_page(PopupPage::Settings);
    assert_eq!(model.popup_page, PopupPage::Settings);
    model.set_popup_page(PopupPage::Main);
    assert_eq!(model.popup_page, PopupPage::Main);
}

#[test]
fn falls_back_to_first_player_and_to_placeholder() {
    let model = new_model(snapshot(vec![
        player("a", PlaybackState::Stopped, false),
        player("b", PlaybackState::Unknown, false),
    ]));
    assert_eq!(model.selected_player.as_deref(), Some("a"));
    assert!(!model.has_active_media());

    let empty = new_model(MediaSnapshot::default());
    assert_eq!(empty.selected_player, None);
    assert_eq!(empty.now_playing, NowPlayingData::nothing_playing(NOTHING_PLAYING.to_owned()));
    assert_eq!(empty.now_playing.state, PlaybackState::Stopped);
}

#[test]
fn selecting_unknown_player_changes_nothing() {
    let mut model = new_model(snapshot(vec![
        player("one", PlaybackState::Playing, true),
        player("two", PlaybackState::Paused, true),
    ]));
    model.select_player("three".to_owned());
    assert_eq!(model.selected_player.as_deref(), Some("one"));
    assert_eq!(model.now_playing.text, "one");
    model.select_player("two".to_owned());
    assert_eq!(model.selected_player.as_deref(), Some("two"));
    assert_eq!(model.now_playing.text, "two");
}

#[test]
fn applying_a_snapshot_twice_is_applying_it_once() {
    let players = vec![
        player("one", PlaybackState::Paused, true),
        player("two", PlaybackState::Playing, false),
    ];
    let mut model = new_model(MediaSnapshot::default());
    model.apply_snapshot(snapshot(players.clone()));
    let once = (model.selected_player.clone(), model.now_playing.clone());
    model.apply_snapshot(snapshot(players));
    assert_eq!((model.selected_player.clone(), model.now_playing.clone()), once);
    assert_eq!(model.selected_player.as_deref(), Some("two"));
}

#[test]
fn setters_change_one_setting_each() {
    let mut model = new_model(MediaSnapshot::default());
    model.set_previous_control_enabled(true);
    model.set_play_control_enabled(false);
    model.set_next_control_enabled(true);
    model.set_album_color_enabled(false);
    assert_eq!(
        model.settings,
        AppSettings {
            album_color_enabled: false,
            previous_control_enabled: true,
            play_control_enabled: false,
            next_control_enabled: true,
        }
    );
}

#[test]
fn album_colour_source_follows_setting() {
    let mut shown = player("art", PlaybackState::Playing, true);
    shown.now_playing.album_art_path = Some(b"/art.png".to_vec());
    let mut model = new_model(snapshot(vec![shown]));
    assert_eq!(model.album_color_source(), Some(b"/art.png".to_vec()));
    model.set_album_color_enabled(false);
    assert_eq!(model.album_color_source(), None);
}

#[test]
fn track_line_is_empty_without_metadata() {
    assert_eq!(player("p", PlaybackState::Playing, true).track(), "p");
    assert_eq!(player("p", PlaybackState::Playing, false).track(), "");
}
