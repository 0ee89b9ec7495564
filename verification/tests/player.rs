use now_playing::media::TrackMetadata;
use now_playing::player::{
    album_art_path_from_metadata, file_url_to_path, hex_value, percent_decode_path,
};

#[test]
fn parses_file_url_paths() {
    assert_eq!(
        file_url_to_path("file:///home/user/Music/Album%20Art.png"),
        Some(String::from("/home/user/Music/Album Art.png"))
    );
}

#[test]
fn ignores_non_file_urls() {
    assert_eq!(file_url_to_path("https://example.com/cover.png"), None);
}

#[test]
fn strips_localhost_and_decodes_utf8() {
    assert_eq!(
        file_url_to_path("file://localhost/home/user/M%C3%BAsica.png"),
        Some(String::from("/home/user/Música.png"))
    );
}

#[test]
fn keeps_lone_percent_signs() {
    assert_eq!(percent_decode_path("/a%2/b%zz%"), "/a%2/b%zz%");
    assert_eq!(percent_decode_path("%41%62"), "Ab");
}

#[test]
fn invalid_utf8_becomes_replacement_character() {
    assert_eq!(percent_decode_path("/x%FF"), "/x\u{FFFD}");
}

#[test]
fn hex_digits_have_their_values() {
    assert_eq!(hex_value(b'0'), Some(0));
    assert_eq!(hex_value(b'9'), Some(9));
    assert_eq!(hex_value(b'a'), Some(10));
    assert_eq!(hex_value(b'F'), Some(15));
    assert_eq!(hex_value(b'g'), None);
}

#[test]
fn album_art_comes_from_art_url() {
    let meta = TrackMetadata {
        title: None,
        artists: None,
        art_url: Some("file:///covers/a%20b.jpg".to_owned()),
        is_empty: false,
    };
    assert_eq!(album_art_path_from_metadata(&meta), Some("/covers/a b.jpg".to_owned()));
    let none = TrackMetadata { art_url: None, ..meta };
    assert_eq!(album_art_path_from_metadata(&none), None);
}

fn escaped(text: &str, upper: bool) -> String {
    text.bytes()
        .map(|byte| if upper { format!("%{byte:02X}") } else { format!("%{byte:02x}") })
        .collect()
}

#[test]
fn fully_escaped_paths_decode_to_themselves() {
    for path in ["/home/user/Música/Portada.png", "/a b/%c", ""] {
        assert_eq!(percent_decode_path(&escaped(path, true)), path);
        assert_eq!(percent_decode_path(&escaped(path, false)), path);
    }
}

#[test]
fn paths_without_percent_decode_to_themselves() {
    for path in ["/home/user/Música/Portada.png", "relative/a b", ""] {
        assert_eq!(percent_decode_path(path), path);
    }
}
