use now_playing::model::{AppModel, MediaSnapshot, NowPlayingData, PlaybackState, PlayerInfo, PopupPage};
use now_playing::settings::AppSettings;
use now_playing::ui::{
    panel_controls, player_rows, popup_page_shown, shows_player_selector, transport_icon,
    PanelControls,
};

fn entry(id: &str, state: PlaybackState, has_metadata: bool) -> PlayerInfo {
    PlayerInfo {
        id: id.to_owned(),
        identity: format!("{id} player"),
        now_playing: NowPlayingData {
            text: format!("{id} - song"),
            title: "song".to_owned(),
            artist: id.to_owned(),
            state,
            album_art_path: None,
            has_usable_metadata: has_metadata,
        },
    }
}

fn ui_model(players: Vec<PlayerInfo>) -> AppModel {
    AppModel::new(AppSettings::default(), MediaSnapshot { players }, "Nothing playing".to_owned())
}

#[test]
fn transport_icon_follows_playback() {
    assert_eq!(
        transport_icon(&ui_model(vec![entry("a", PlaybackState::Playing, true)])),
        "media-playback-pause-symbolic"
    );
    assert_eq!(
        transport_icon(&ui_model(vec![entry("a", PlaybackState::Paused, true)])),
        "media-playback-start-symbolic"
    );
}

#[test]
fn panel_shows_enabled_controls_only_with_media() {
    let model = ui_model(vec![entry("a", PlaybackState::Paused, true)]);
    assert_eq!(
        panel_controls(&model),
        Some(PanelControls { previous: false, play: true, next: false })
    );
    assert_eq!(popup_page_shown(&model), Some(PopupPage::Main));
    let idle = ui_model(vec![entry("a", PlaybackState::Paused, false)]);
    assert_eq!(panel_controls(&idle), None);
    assert_eq!(popup_page_shown(&idle), None);
}

#[test]
fn player_list_marks_selection() {
    let model = ui_model(vec![
        entry("a", PlaybackState::Paused, false),
        entry("b", PlaybackState::Playing, true),
    ]);
    assert!(shows_player_selector(&model));
    let rows = player_rows(&model);
    assert_eq!(rows.len(), 2);
    assert_eq!(rows[0].identity, "a player");
    assert_eq!(rows[0].track, "");
    assert!(!rows[0].selected);
    assert_eq!(rows[1].track, "b - song");
    assert!(rows[1].selected);
    assert!(!shows_player_selector(&ui_model(vec![entry("a", PlaybackState::Paused, true)])));
}
