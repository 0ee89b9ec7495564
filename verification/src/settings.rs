//! Applet settings: what is stored for each of them and how it is read back.
use vstd::prelude::*;

use crate::text::{str_eq, trim, trim_end, trim_start, trimmed};

verus! {

/// The user's choices: album colours and which transport controls the panel shows.
#[derive(Clone, Copy, Debug, PartialEq, Eq, Structural)]
pub struct AppSettings {
    pub album_color_enabled: bool,
    pub previous_control_enabled: bool,
    pub play_control_enabled: bool,
    pub next_control_enabled: bool,
}

/// The settings a fresh installation starts with: album colours and the play control.
pub open spec fn default_settings() -> AppSettings {
    AppSettings {
        album_color_enabled: true,
        previous_control_enabled: false,
        play_control_enabled: true,
        next_control_enabled: false,
    }
}

impl Default for AppSettings {
    fn default() -> (r: Self)
        ensures
            r == default_settings(),
    {
        AppSettings {
            album_color_enabled: true,
            previous_control_enabled: false,
            play_control_enabled: true,
            next_control_enabled: false,
        }
    }
}

/// The name of the file that holds whether album colours are used.
pub const ALBUM_COLOR_ENABLED: &'static str = "album-color-enabled";

/// The name of the file that holds whether the "previous" control is shown.
pub const PREVIOUS_CONTROL_ENABLED: &'static str = "previous-control-enabled";

/// The name of the file that holds whether the play/pause control is shown.
pub const PLAY_CONTROL_ENABLED: &'static str = "play-control-enabled";

/// The name of the file that holds whether the "next" control is shown.
pub const NEXT_CONTROL_ENABLED: &'static str = "next-control-enabled";

/// What a setting's file holds for a value: `true` or `false` and a line break.
pub open spec fn encoded_bool(value: bool) -> Seq<char> {
    if value {
        "true\n"@
    } else {
        "false\n"@
    }
}

/// What is written to a setting's file for a value.
pub fn encode_bool_setting(value: bool) -> (r: &'static str)
    ensures
        r@ == encoded_bool(value),
{
    if value {
        "true\n"
    } else {
        "false\n"
    }
}

/// What a setting's file means: `true` or `false`, white space around it allowed, and
/// nothing for anything else.
pub open spec fn parsed_bool(contents: Seq<char>) -> Option<bool> {
    if trimmed(contents) == "true"@ {
        Some(true)
    } else if trimmed(contents) == "false"@ {
        Some(false)
    } else {
        None
    }
}

/// Reads a setting's file contents: `true` or `false` around white space; none for
/// anything else.
pub fn parse_bool_setting(contents: &str) -> (r: Option<bool>)
    ensures
        r == parsed_bool(contents@),
{
    let value = trim(contents);
    if str_eq(value, "true") {
        Some(true)
    } else if str_eq(value, "false") {
        Some(false)
    } else {
        None
    }
}

/// The contents of the four settings files; none where a file could not be read.
#[derive(Clone, Debug, PartialEq, Eq)]
pub struct StoredSettings {
    pub album_color_enabled: Option<String>,
    pub previous_control_enabled: Option<String>,
    pub play_control_enabled: Option<String>,
    pub next_control_enabled: Option<String>,
}

/// A setting as read from its file: the stored value when the file holds one, else the
/// default.
pub open spec fn setting_or(stored: Option<String>, default: bool) -> bool {
    match stored {
        Some(contents) => match parsed_bool(contents@) {
            Some(value) => value,
            None => default,
        },
        None => default,
    }
}

/// The settings that stored files give: each from its own file, falling back to its
/// default on its own.
pub open spec fn loaded_settings(stored: StoredSettings) -> AppSettings {
    AppSettings {
        album_color_enabled: setting_or(
            stored.album_color_enabled,
            default_settings().album_color_enabled,
        ),
        previous_control_enabled: setting_or(
            stored.previous_control_enabled,
            default_settings().previous_control_enabled,
        ),
        play_control_enabled: setting_or(
            stored.play_control_enabled,
            default_settings().play_control_enabled,
        ),
        next_control_enabled: setting_or(
            stored.next_control_enabled,
            default_settings().next_control_enabled,
        ),
    }
}

fn load_setting(stored: &Option<String>, default: bool) -> (r: bool)
    ensures
        r == setting_or(*stored, default),
{
    match stored {
        Some(contents) => match parse_bool_setting(contents.as_str()) {
            Some(value) => value,
            None => default,
        },
        None => default,
    }
}

/// The settings that the stored files give; a missing or unreadable file, or one that
/// holds neither `true` nor `false`, gives that setting's default.
pub fn load_from(stored: &StoredSettings) -> (r: AppSettings)
    ensures
        r == loaded_settings(*stored),
{
    let defaults = AppSettings::default();
    AppSettings {
        album_color_enabled: load_setting(
            &stored.album_color_enabled,
            defaults.album_color_enabled,
        ),
        previous_control_enabled: load_setting(
            &stored.previous_control_enabled,
            defaults.previous_control_enabled,
        ),
        play_control_enabled: load_setting(
            &stored.play_control_enabled,
            defaults.play_control_enabled,
        ),
        next_control_enabled: load_setting(
            &stored.next_control_enabled,
            defaults.next_control_enabled,
        ),
    }
}

/// Whether `stored` holds what is written for `settings`, file by file.
pub open spec fn stores(stored: StoredSettings, settings: AppSettings) -> bool {
    &&& stored.album_color_enabled matches Some(c) && c@ == encoded_bool(
        settings.album_color_enabled,
    )
    &&& stored.previous_control_enabled matches Some(c) && c@ == encoded_bool(
        settings.previous_control_enabled,
    )
    &&& stored.play_control_enabled matches Some(c) && c@ == encoded_bool(
        settings.play_control_enabled,
    )
    &&& stored.next_control_enabled matches Some(c) && c@ == encoded_bool(
        settings.next_control_enabled,
    )
}

/// What is written to the four settings files for `settings`.
pub fn stored_settings(settings: AppSettings) -> (r: StoredSettings)
    ensures
        stores(r, settings),
{
    StoredSettings {
        album_color_enabled: Some(String::from_str(encode_bool_setting(settings.album_color_enabled))),
        previous_control_enabled: Some(
            String::from_str(encode_bool_setting(settings.previous_control_enabled)),
        ),
        play_control_enabled: Some(String::from_str(encode_bool_setting(settings.play_control_enabled))),
        next_control_enabled: Some(String::from_str(encode_bool_setting(settings.next_control_enabled))),
    }
}

/// A written value reads back as itself.
pub proof fn lemma_encoded_bool_parses(value: bool)
    ensures
        parsed_bool(encoded_bool(value)) == Some(value),
{
    reveal_strlit("true\n");
    reveal_strlit("false\n");
    reveal_strlit("true");
    reveal_strlit("false");
    reveal_with_fuel(trim_start, 2);
    reveal_with_fuel(trim_end, 3);
    assert("true\n"@.drop_last() =~= "true"@);
    assert("false\n"@.drop_last() =~= "false"@);
    assert("true"@ != "false"@);
}

/// Saving and loading give back the same settings: files that hold what was written for
/// `settings` read back as `settings`.
pub proof fn lemma_settings_round_trip(stored: StoredSettings, settings: AppSettings)
    requires
        stores(stored, settings),
    ensures
        loaded_settings(stored) == settings,
{
    lemma_encoded_bool_parses(settings.album_color_enabled);
    lemma_encoded_bool_parses(settings.previous_control_enabled);
    lemma_encoded_bool_parses(settings.play_control_enabled);
    lemma_encoded_bool_parses(settings.next_control_enabled);
}

} // verus!
