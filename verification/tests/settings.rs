use now_playing::settings::{
    encode_bool_setting, load_from, parse_bool_setting, stored_settings, AppSettings,
    StoredSettings,
};

fn nothing_stored() -> StoredSettings {
    StoredSettings {
        album_color_enabled: None,
        previous_control_enabled: None,
        play_control_enabled: None,
        next_control_enabled: None,
    }
}

#[test]
fn defaults_to_play_control_only() {
    assert_eq!(
        AppSettings::default(),
        AppSettings {
            album_color_enabled: true,
            previous_control_enabled: false,
            play_control_enabled: true,
            next_control_enabled: false,
        }
    );
}

#[test]
fn round_trips_settings() {
    let expected = AppSettings {
        album_color_enabled: false,
        previous_control_enabled: true,
        play_control_enabled: false,
        next_control_enabled: true,
    };

    let stored = stored_settings(expected);

    assert_eq!(load_from(&stored), expected);
}

#[test]
fn defaults_missing_control_settings() {
    let stored = StoredSettings {
        album_color_enabled: Some("false\n".to_owned()),
        ..nothing_stored()
    };

    assert_eq!(
        load_from(&stored),
        AppSettings {
            album_color_enabled: false,
            ..AppSettings::default()
        }
    );
}

#[test]
fn invalid_values_fall_back_independently() {
    let stored = StoredSettings {
        album_color_enabled: Some("false\n".to_owned()),
        previous_control_enabled: Some("sometimes\n".to_owned()),
        play_control_enabled: Some("false\n".to_owned()),
        next_control_enabled: Some("true\n".to_owned()),
    };

    assert_eq!(
        load_from(&stored),
        AppSettings {
            album_color_enabled: false,
            previous_control_enabled: false,
            play_control_enabled: false,
            next_control_enabled: true,
        }
    );
}

#[test]
fn supports_all_controls_disabled() {
    let expected = AppSettings {
        album_color_enabled: true,
        previous_control_enabled: false,
        play_control_enabled: false,
        next_control_enabled: false,
    };

    let stored = stored_settings(expected);

    assert_eq!(load_from(&stored), expected);
}

#[test]
fn nothing_stored_gives_defaults() {
    assert_eq!(load_from(&nothing_stored()), AppSettings::default());
}

#[test]
fn parses_values_around_white_space() {
    assert_eq!(parse_bool_setting("true"), Some(true));
    assert_eq!(parse_bool_setting("  false\r\n"), Some(false));
    assert_eq!(parse_bool_setting("\u{3000}true\u{a0}"), Some(true));
    assert_eq!(parse_bool_setting("True"), None);
    assert_eq!(parse_bool_setting("t rue"), None);
    assert_eq!(parse_bool_setting(""), None);
}

#[test]
fn writes_values_with_line_break() {
    assert_eq!(encode_bool_setting(true), "true\n");
    assert_eq!(encode_bool_setting(false), "false\n");
    let stored = stored_settings(AppSettings::default());
    assert_eq!(stored.album_color_enabled.as_deref(), Some("true\n"));
    assert_eq!(stored.previous_control_enabled.as_deref(), Some("false\n"));
}
