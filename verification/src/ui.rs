//! What the panel button and the popup show, decided from the model; drawing it is left
//! to the toolkit.
use vstd::prelude::*;
use vstd::string::*;

use crate::model::{AppModel, PlaybackState, PopupPage};
use crate::text::str_eq;

verus! {

/// The icon of the transport control while a track plays: pause.
pub const PAUSE_ICON: &'static str = "media-playback-pause-symbolic";

/// The icon of the transport control otherwise: play.
pub const PLAY_ICON: &'static str = "media-playback-start-symbolic";

/// The icon of the play/pause control: pause while the shown track plays, else play.
pub fn transport_icon(model: &AppModel) -> (r: &'static str)
    ensures
        r@ == (if model.now_playing.state == PlaybackState::Playing {
            PAUSE_ICON@
        } else {
            PLAY_ICON@
        }),
{
    match model.now_playing.state {
        PlaybackState::Playing => PAUSE_ICON,
        PlaybackState::Paused | PlaybackState::Stopped | PlaybackState::Unknown => PLAY_ICON,
    }
}

/// The transport controls that the panel button shows beside the track text.
#[derive(Clone, Copy, Debug, PartialEq, Eq, Structural)]
pub struct PanelControls {
    pub previous: bool,
    pub play: bool,
    pub next: bool,
}

/// What the panel button shows: nothing without active media, else the controls that the
/// settings enable.
pub fn panel_controls(model: &AppModel) -> (r: Option<PanelControls>)
    ensures
        r == (if model.now_playing.has_usable_metadata {
            Some(
                PanelControls {
                    previous: model.settings.previous_control_enabled,
                    play: model.settings.play_control_enabled,
                    next: model.settings.next_control_enabled,
                },
            )
        } else {
            None
        }),
{
    if !model.has_active_media() {
        return None;
    }
    Some(
        PanelControls {
            previous: model.settings.previous_control_enabled,
            play: model.settings.play_control_enabled,
            next: model.settings.next_control_enabled,
        },
    )
}

/// The page that the popup shows: none without active media, else the current page.
pub fn popup_page_shown(model: &AppModel) -> (r: Option<PopupPage>)
    ensures
        r == (if model.now_playing.has_usable_metadata {
            Some(model.popup_page)
        } else {
            None
        }),
{
    if !model.has_active_media() {
        return None;
    }
    Some(model.popup_page)
}

/// Whether the main page offers the player list: when there is more than one player.
pub fn shows_player_selector(model: &AppModel) -> (r: bool)
    ensures
        r == (model.players@.len() > 1),
{
    model.players.len() > 1
}

/// One line of the player list.
#[derive(Clone, Debug, PartialEq, Eq)]
pub struct PlayerRow {
    pub id: String,
    pub identity: String,
    pub track: String,
    /// Whether this is the selected player.
    pub selected: bool,
}

/// The player list: one line per player, in order, with its name, its track line and
/// whether it is the selected one.
pub fn player_rows(model: &AppModel) -> (r: Vec<PlayerRow>)
    ensures
        r@.len() == model.players@.len(),
        forall|i: int|
            0 <= i < r@.len() ==> {
                let p = model.players@[i];
                &&& (#[trigger] r@[i]).id@ == p.id@
                &&& r@[i].identity@ == p.identity@
                &&& r@[i].track@ == (if p.now_playing.has_usable_metadata {
                    p.now_playing.text@
                } else {
                    Seq::<char>::empty()
                })
                &&& r@[i].selected == (model.selected_player matches Some(s) && s@ == p.id@)
            },
{
    let mut rows: Vec<PlayerRow> = Vec::with_capacity(model.players.len());
    let mut i: usize = 0;
    while i < model.players.len()
        invariant
            i <= model.players@.len(),
            rows@.len() == i,
            forall|j: int|
                0 <= j < i ==> {
                    let p = model.players@[j];
                    &&& (#[trigger] rows@[j]).id@ == p.id@
                    &&& rows@[j].identity@ == p.identity@
                    &&& rows@[j].track@ == (if p.now_playing.has_usable_metadata {
                        p.now_playing.text@
                    } else {
                        Seq::<char>::empty()
                    })
                    &&& rows@[j].selected == (model.selected_player matches Some(s) && s@
                        == p.id@)
                },
        decreases model.players.len() - i,
    {
        let player = &model.players[i];
        let selected = match &model.selected_player {
            Some(s) => str_eq(s.as_str(), player.id.as_str()),
            None => false,
        };
        rows.push(
            PlayerRow {
                id: player.id.clone(),
                identity: player.identity.clone(),
                track: String::from_str(player.track()),
                selected,
            },
        );
        i += 1;
    }
    rows
}

} // verus!
