//! How the applet answers each message: what becomes of its state, and what the window
//! around it has to do (open or close the popup, save the settings, send a command).
use vstd::prelude::*;

use crate::media::MediaCommand;
use crate::model::{
    after_select, after_snapshot, has_id, lemma_first_index, AppModel, AppModelView, MediaSnapshot,
    PopupPage,
};
use crate::settings::AppSettings;

verus! {

/// What the user or the bus asks of the applet.
#[derive(Clone, Debug, PartialEq, Eq)]
pub enum Message {
    TogglePopup,
    ShowMain,
    ShowPlayerList,
    ShowSettings,
    SetAlbumColorEnabled(bool),
    SetPreviousControlEnabled(bool),
    SetPlayControlEnabled(bool),
    SetNextControlEnabled(bool),
    SelectPlayer(String),
    /// A popup window was closed; the flag says whether it is the applet's open popup.
    PopupClosed(bool),
    MediaChanged(MediaSnapshot),
    PreviousTrack,
    TogglePlayPause,
    NextTrack,
}

/// What becomes of the popup window.
#[derive(Clone, Copy, Debug, PartialEq, Eq, Structural)]
pub enum PopupEffect {
    /// It stays as it is.
    Keep,
    /// A popup is to be opened.
    Open,
    /// The open popup is to be destroyed.
    Close,
    /// The open popup is gone already; it is only to be forgotten.
    Forget,
}

/// What the window has to do after a message.
#[derive(Clone, Copy, Debug, PartialEq, Eq, Structural)]
pub struct Effects {
    pub popup: PopupEffect,
    /// Whether the settings are to be saved.
    pub save_settings: bool,
    /// The command to send to the selected player, if any.
    pub command: Option<MediaCommand>,
}

pub open spec fn effects(popup: PopupEffect, save_settings: bool, command: Option<MediaCommand>) -> Effects {
    Effects { popup, save_settings, command }
}

/// The model with another popup page.
pub open spec fn with_page(m: AppModelView, page: PopupPage) -> AppModelView {
    AppModelView { popup_page: page, ..m }
}

/// The model with other settings.
pub open spec fn with_settings(m: AppModelView, settings: AppSettings) -> AppModelView {
    AppModelView { settings, ..m }
}

/// The state and effects that a message leads to, given whether the popup is open.
pub open spec fn updated(m: AppModelView, popup_open: bool, message: Message) -> (AppModelView, Effects) {
    match message {
        Message::TogglePopup => if popup_open {
            (with_page(m, PopupPage::Main), effects(PopupEffect::Close, false, None))
        } else {
            (m, effects(PopupEffect::Open, false, None))
        },
        Message::ShowMain => (with_page(m, PopupPage::Main), effects(PopupEffect::Keep, false, None)),
        Message::ShowPlayerList => (
            with_page(m, PopupPage::PlayerList),
            effects(PopupEffect::Keep, false, None),
        ),
        Message::ShowSettings => (
            with_page(m, PopupPage::Settings),
            effects(PopupEffect::Keep, false, None),
        ),
        Message::SetAlbumColorEnabled(enabled) => (
            with_settings(m, AppSettings { album_color_enabled: enabled, ..m.settings }),
            effects(PopupEffect::Keep, true, None),
        ),
        Message::SetPreviousControlEnabled(enabled) => (
            with_settings(m, AppSettings { previous_control_enabled: enabled, ..m.settings }),
            effects(PopupEffect::Keep, true, None),
        ),
        Message::SetPlayControlEnabled(enabled) => (
            with_settings(m, AppSettings { play_control_enabled: enabled, ..m.settings }),
            effects(PopupEffect::Keep, true, None),
        ),
        Message::SetNextControlEnabled(enabled) => (
            with_settings(m, AppSettings { next_control_enabled: enabled, ..m.settings }),
            effects(PopupEffect::Keep, true, None),
        ),
        Message::SelectPlayer(id) => (
            with_page(after_select(m, id@), PopupPage::Main),
            effects(PopupEffect::Keep, false, None),
        ),
        Message::PopupClosed(is_open_popup) => if is_open_popup && popup_open {
            (with_page(m, PopupPage::Main), effects(PopupEffect::Forget, false, None))
        } else {
            (m, effects(PopupEffect::Keep, false, None))
        },
        Message::MediaChanged(snapshot) => {
            let next = after_snapshot(m, snapshot@);
            if !next.now_playing.has_usable_metadata && popup_open {
                (with_page(next, PopupPage::Main), effects(PopupEffect::Close, false, None))
            } else {
                (next, effects(PopupEffect::Keep, false, None))
            }
        },
        Message::PreviousTrack => (
            m,
            effects(PopupEffect::Keep, false, Some(MediaCommand::Previous)),
        ),
        Message::TogglePlayPause => (
            m,
            effects(PopupEffect::Keep, false, Some(MediaCommand::TogglePlayPause)),
        ),
        Message::NextTrack => (m, effects(PopupEffect::Keep, false, Some(MediaCommand::Next))),
    }
}

/// Answers a message: updates the model and says what the window has to do. `popup_open`
/// tells whether the applet's popup is open.
pub fn update(model: &mut AppModel, popup_open: bool, message: Message) -> (r: Effects)
    ensures
        (final(model)@, r) == updated(old(model)@, popup_open, message),
        old(model)@.wf() ==> final(model)@.wf(),
{
    match message {
        Message::TogglePopup => {
            if popup_open {
                model.set_popup_page(PopupPage::Main);
                Effects { popup: PopupEffect::Close, save_settings: false, command: None }
            } else {
                Effects { popup: PopupEffect::Open, save_settings: false, command: None }
            }
        },
        Message::ShowMain => {
            model.set_popup_page(PopupPage::Main);
            Effects { popup: PopupEffect::Keep, save_settings: false, command: None }
        },
        Message::ShowPlayerList => {
            model.set_popup_page(PopupPage::PlayerList);
            Effects { popup: PopupEffect::Keep, save_settings: false, command: None }
        },
        Message::ShowSettings => {
            model.set_popup_page(PopupPage::Settings);
            Effects { popup: PopupEffect::Keep, save_settings: false, command: None }
        },
        Message::SetAlbumColorEnabled(enabled) => {
            model.set_album_color_enabled(enabled);
            Effects { popup: PopupEffect::Keep, save_settings: true, command: None }
        },
        Message::SetPreviousControlEnabled(enabled) => {
            model.set_previous_control_enabled(enabled);
            Effects { popup: PopupEffect::Keep, save_settings: true, command: None }
        },
        Message::SetPlayControlEnabled(enabled) => {
            model.set_play_control_enabled(enabled);
            Effects { popup: PopupEffect::Keep, save_settings: true, command: None }
        },
        Message::SetNextControlEnabled(enabled) => {
            model.set_next_control_enabled(enabled);
            Effects { popup: PopupEffect::Keep, save_settings: true, command: None }
        },
        Message::SelectPlayer(id) => {
            model.select_player(id);
            model.set_popup_page(PopupPage::Main);
            Effects { popup: PopupEffect::Keep, save_settings: false, command: None }
        },
        Message::PopupClosed(is_open_popup) => {
            if is_open_popup && popup_open {
                model.set_popup_page(PopupPage::Main);
                Effects { popup: PopupEffect::Forget, save_settings: false, command: None }
            } else {
                Effects { popup: PopupEffect::Keep, save_settings: false, command: None }
            }
        },
        Message::MediaChanged(snapshot) => {
            model.apply_snapshot(snapshot);
            if !model.has_active_media() && popup_open {
                model.set_popup_page(PopupPage::Main);
                Effects { popup: PopupEffect::Close, save_settings: false, command: None }
            } else {
                Effects { popup: PopupEffect::Keep, save_settings: false, command: None }
            }
        },
        Message::PreviousTrack => Effects {
            popup: PopupEffect::Keep,
            save_settings: false,
            command: Some(MediaCommand::Previous),
        },
        Message::TogglePlayPause => Effects {
            popup: PopupEffect::Keep,
            save_settings: false,
            command: Some(MediaCommand::TogglePlayPause),
        },
        Message::NextTrack => Effects {
            popup: PopupEffect::Keep,
            save_settings: false,
            command: Some(MediaCommand::Next),
        },
    }
}

/// Whenever the popup is closed or forgotten, the next popup starts on the main page.
pub proof fn lemma_closing_popup_returns_to_main(m: AppModelView, popup_open: bool, message: Message)
    ensures
        ({
            let (next, e) = updated(m, popup_open, message);
            (e.popup is Close || e.popup is Forget) ==> next.popup_page == PopupPage::Main
        }),
{
}

/// The settings are saved exactly when one of them is set, and then they hold the new
/// value; no other message changes them.
pub proof fn lemma_settings_saved_exactly_when_set(
    m: AppModelView,
    popup_open: bool,
    message: Message,
)
    ensures
        ({
            let (next, e) = updated(m, popup_open, message);
            &&& e.save_settings <==> (message is SetAlbumColorEnabled
                || message is SetPreviousControlEnabled || message is SetPlayControlEnabled
                || message is SetNextControlEnabled)
            &&& !e.save_settings ==> next.settings == m.settings
        }),
{
}

/// An open popup is closed when new players leave nothing to show.
pub proof fn lemma_popup_closes_without_media(m: AppModelView, snapshot: MediaSnapshot)
    ensures
        ({
            let (next, e) = updated(m, true, Message::MediaChanged(snapshot));
            !next.now_playing.has_usable_metadata ==> e.popup is Close
        }),
{
}

/// Only a popup message can open a popup, and only when none is open.
pub proof fn lemma_popup_opens_only_on_toggle(m: AppModelView, popup_open: bool, message: Message)
    ensures
        updated(m, popup_open, message).1.popup is Open ==> (message is TogglePopup
            && !popup_open),
{
}

/// A transport command is sent exactly for a transport message, and it changes nothing
/// in the model.
pub proof fn lemma_commands_leave_model_alone(m: AppModelView, popup_open: bool, message: Message)
    ensures
        ({
            let (next, e) = updated(m, popup_open, message);
            e.command is Some ==> next == m
        }),
{
}

/// Setting a control or album colours sets that setting to the given value, leaves the
/// other settings and the rest of the model as they were, keeps the popup and asks for
/// the settings to be saved.
pub proof fn lemma_setting_messages_set_their_setting(m: AppModelView, popup_open: bool, v: bool)
    ensures
        ({
            let (n, e) = updated(m, popup_open, Message::SetAlbumColorEnabled(v));
            &&& n.settings.album_color_enabled == v
            &&& n.settings.previous_control_enabled == m.settings.previous_control_enabled
            &&& n.settings.play_control_enabled == m.settings.play_control_enabled
            &&& n.settings.next_control_enabled == m.settings.next_control_enabled
            &&& n == AppModelView { settings: n.settings, ..m }
            &&& e.save_settings && e.popup is Keep && e.command is None
        }),
        ({
            let (n, e) = updated(m, popup_open, Message::SetPreviousControlEnabled(v));
            &&& n.settings.album_color_enabled == m.settings.album_color_enabled
            &&& n.settings.previous_control_enabled == v
            &&& n.settings.play_control_enabled == m.settings.play_control_enabled
            &&& n.settings.next_control_enabled == m.settings.next_control_enabled
            &&& n == AppModelView { settings: n.settings, ..m }
            &&& e.save_settings && e.popup is Keep && e.command is None
        }),
        ({
            let (n, e) = updated(m, popup_open, Message::SetPlayControlEnabled(v));
            &&& n.settings.album_color_enabled == m.settings.album_color_enabled
            &&& n.settings.previous_control_enabled == m.settings.previous_control_enabled
            &&& n.settings.play_control_enabled == v
            &&& n.settings.next_control_enabled == m.settings.next_control_enabled
            &&& n == AppModelView { settings: n.settings, ..m }
            &&& e.save_settings && e.popup is Keep && e.command is None
        }),
        ({
            let (n, e) = updated(m, popup_open, Message::SetNextControlEnabled(v));
            &&& n.settings.album_color_enabled == m.settings.album_color_enabled
            &&& n.settings.previous_control_enabled == m.settings.previous_control_enabled
            &&& n.settings.play_control_enabled == m.settings.play_control_enabled
            &&& n.settings.next_control_enabled == v
            &&& n == AppModelView { settings: n.settings, ..m }
            &&& e.save_settings && e.popup is Keep && e.command is None
        }),
{
}

/// Each page message shows its page and changes nothing else.
pub proof fn lemma_page_messages_show_their_page(m: AppModelView, popup_open: bool)
    ensures
        updated(m, popup_open, Message::ShowMain) == (
            AppModelView { popup_page: PopupPage::Main, ..m },
            Effects { popup: PopupEffect::Keep, save_settings: false, command: None },
        ),
        updated(m, popup_open, Message::ShowPlayerList) == (
            AppModelView { popup_page: PopupPage::PlayerList, ..m },
            Effects { popup: PopupEffect::Keep, save_settings: false, command: None },
        ),
        updated(m, popup_open, Message::ShowSettings) == (
            AppModelView { popup_page: PopupPage::Settings, ..m },
            Effects { popup: PopupEffect::Keep, save_settings: false, command: None },
        ),
{
}

/// Each transport message sends its own command and changes nothing else.
pub proof fn lemma_transport_messages_send_their_command(m: AppModelView, popup_open: bool)
    ensures
        updated(m, popup_open, Message::PreviousTrack) == (
            m,
            Effects {
                popup: PopupEffect::Keep,
                save_settings: false,
                command: Some(MediaCommand::Previous),
            },
        ),
        updated(m, popup_open, Message::TogglePlayPause) == (
            m,
            Effects {
                popup: PopupEffect::Keep,
                save_settings: false,
                command: Some(MediaCommand::TogglePlayPause),
            },
        ),
        updated(m, popup_open, Message::NextTrack) == (
            m,
            Effects { popup: PopupEffect::Keep, save_settings: false, command: Some(MediaCommand::Next) },
        ),
{
}

/// Toggling closes an open popup on the main page, and asks for a popup when none is open
/// without changing the model.
pub proof fn lemma_toggle_popup(m: AppModelView)
    ensures
        updated(m, true, Message::TogglePopup) == (
            AppModelView { popup_page: PopupPage::Main, ..m },
            Effects { popup: PopupEffect::Close, save_settings: false, command: None },
        ),
        updated(m, false, Message::TogglePopup) == (
            m,
            Effects { popup: PopupEffect::Open, save_settings: false, command: None },
        ),
{
}

/// Selecting a listed player selects it and returns to the main page; selecting one that
/// is not listed only returns to the main page. Settings are not saved and the popup stays.
pub proof fn lemma_select_player_message(m: AppModelView, popup_open: bool, id: String)
    ensures
        ({
            let (n, e) = updated(m, popup_open, Message::SelectPlayer(id));
            &&& n.popup_page == PopupPage::Main
            &&& (exists|i: int| 0 <= i < m.players.len() && (#[trigger] m.players[i]).id == id@)
                ==> n.selected_player == Some(id@)
            &&& (forall|i: int| 0 <= i < m.players.len() ==> (#[trigger] m.players[i]).id != id@)
                ==> n == AppModelView { popup_page: PopupPage::Main, ..m }
            &&& n.players == m.players && n.settings == m.settings
            &&& e == Effects { popup: PopupEffect::Keep, save_settings: false, command: None }
        }),
{
    lemma_first_index(m.players, has_id(id@));
    if exists|i: int| 0 <= i < m.players.len() && (#[trigger] m.players[i]).id == id@ {
        let i = choose|i: int| 0 <= i < m.players.len() && (#[trigger] m.players[i]).id == id@;
        assert(has_id(id@)(m.players[i]));
    }
}

/// New players replace the listed ones; the settings stay and nothing is saved or sent.
pub proof fn lemma_media_changed_takes_players(m: AppModelView, popup_open: bool, snapshot: MediaSnapshot)
    ensures
        ({
            let (n, e) = updated(m, popup_open, Message::MediaChanged(snapshot));
            &&& n.players == snapshot@
            &&& n.settings == m.settings
            &&& !e.save_settings && e.command is None
            &&& (e.popup is Keep || e.popup is Close)
        }),
{
}

} // verus!
