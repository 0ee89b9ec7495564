use now_playing::media::MediaCommand;
use now_playing::model::{AppModel, MediaSnapshot, NowPlayingData, PlaybackState, PlayerInfo, PopupPage};
use now_playing::settings::AppSettings;
use now_playing::window::{update, Effects, Message, PopupEffect};

fn listed(id: &str, has_metadata: bool) -> PlayerInfo {
    let mut now_playing = NowPlayingData::nothing_playing("Nothing playing".to_owned());
    now_playing.has_usable_metadata = has_metadata;
    now_playing.state = PlaybackState::Paused;
    PlayerInfo { id: id.to_owned(), identity: id.to_owned(), now_playing }
}

fn model_with(players: Vec<PlayerInfo>) -> AppModel {
    AppModel::new(AppSettings::default(), MediaSnapshot { players }, "Nothing playing".to_owned())
}

fn keep() -> Effects {
    Effects { popup: PopupEffect::Keep, save_settings: false, command: None }
}

#[test]
fn toggling_opens_and_closes_the_popup() {
    let mut model = model_with(vec![listed("a", true)]);
    model.set_popup_page(PopupPage::Settings);
    let opened = update(&mut model, false, Message::TogglePopup);
    assert_eq!(opened.popup, PopupEffect::Open);
    assert_eq!(model.popup_page, PopupPage::Settings);
    let closed = update(&mut model, true, Message::TogglePopup);
    assert_eq!(closed.popup, PopupEffect::Close);
    assert_eq!(model.popup_page, PopupPage::Main);
}

#[test]
fn setting_changes_are_saved() {
    let mut model = model_with(vec![]);
    let effects = update(&mut model, false, Message::SetNextControlEnabled(true));
    assert!(effects.save_settings);
    assert!(model.settings.next_control_enabled);
    let effects = update(&mut model, false, Message::ShowSettings);
    assert_eq!(effects, keep());
    assert_eq!(model.popup_page, PopupPage::Settings);
}

#[test]
fn selecting_a_player_returns_to_main_page() {
    let mut model = model_with(vec![listed("a", true), listed("b", true)]);
    update(&mut model, true, Message::ShowPlayerList);
    assert_eq!(model.popup_page, PopupPage::PlayerList);
    let effects = update(&mut model, true, Message::SelectPlayer("b".to_owned()));
    assert_eq!(effects, keep());
    assert_eq!(model.selected_player.as_deref(), Some("b"));
    assert_eq!(model.popup_page, PopupPage::Main);
}

#[test]
fn closed_popup_is_forgotten_only_when_it_is_ours() {
    let mut model = model_with(vec![listed("a", true)]);
    model.set_popup_page(PopupPage::Settings);
    assert_eq!(update(&mut model, true, Message::PopupClosed(false)), keep());
    assert_eq!(model.popup_page, PopupPage::Settings);
    assert_eq!(update(&mut model, true, Message::PopupClosed(true)).popup, PopupEffect::Forget);
    assert_eq!(model.popup_page, PopupPage::Main);
}

#[test]
fn popup_closes_when_media_goes_away() {
    let mut model = model_with(vec![listed("a", true)]);
    model.set_popup_page(PopupPage::PlayerList);
    let effects = update(&mut model, true, Message::MediaChanged(MediaSnapshot::default()));
    assert_eq!(effects.popup, PopupEffect::Close);
    assert_eq!(model.popup_page, PopupPage::Main);
    assert!(!model.has_active_media());

    let mut model = model_with(vec![listed("a", true)]);
    let effects = update(&mut model, false, Message::MediaChanged(MediaSnapshot::default()));
    assert_eq!(effects, keep());
}

#[test]
fn transport_messages_become_commands() {
    let mut model = model_with(vec![listed("a", true)]);
    assert_eq!(update(&mut model, false, Message::PreviousTrack).command, Some(MediaCommand::Previous));
    assert_eq!(
        update(&mut model, false, Message::TogglePlayPause).command,
        Some(MediaCommand::TogglePlayPause)
    );
    assert_eq!(update(&mut model, false, Message::NextTrack).command, Some(MediaCommand::Next));
}
