//! The panel line of the active player, built from its metadata.
use vstd::prelude::*;
use vstd::string::*;
use vstd::utf8::*;

use crate::media::{shown_artist, shown_title, Labels, TrackMetadata};
use crate::model::PlaybackState;
use crate::player::{album_art_path_from_metadata, percent_decode, strip_file_scheme, utf8_lossy};

verus! {

/// What the active player is playing, ready to be shown.
#[derive(Clone, Debug, PartialEq, Eq)]
pub struct NowPlayingData {
    pub text: String,
    pub title: String,
    pub artist: String,
    pub state: PlaybackState,
    pub album_art_path: Option<String>,
    pub has_active_media: bool,
}

/// The local album art that a track's art URL names, read as a `file://` URL.
pub open spec fn art_path_of(meta: TrackMetadata) -> Option<Seq<char>> {
    match meta.art_url {
        Some(url) => match strip_file_scheme(encode_utf8(url@)) {
            Some(rest) => Some(utf8_lossy(percent_decode(rest))),
            None => None,
        },
        None => None,
    }
}

/// Whether `data` is the placeholder: the "nothing playing" label as text and title, no
/// artist, the given state, no art and no active media.
pub open spec fn is_placeholder(data: NowPlayingData, state: PlaybackState, labels: Labels) -> bool {
    &&& data.text@ == labels.nothing_playing@
    &&& data.title@ == labels.nothing_playing@
    &&& data.artist@ == Seq::<char>::empty()
    &&& data.state == state
    &&& data.album_art_path is None
    &&& !data.has_active_media
}

/// What is shown for a player in `state` whose metadata was read as `metadata` (none when
/// it could not be read): "title - artist" with the art, else the placeholder.
pub fn now_playing_from_metadata(
    state: PlaybackState,
    metadata: Option<TrackMetadata>,
    labels: &Labels,
) -> (r: NowPlayingData)
    ensures
        match metadata {
            Some(meta) => {
                &&& r.text@ == shown_title(meta, *labels) + " - "@ + shown_artist(meta, *labels)
                &&& r.title@ == shown_title(meta, *labels)
                &&& r.artist@ == shown_artist(meta, *labels)
                &&& r.state == state
                &&& match art_path_of(meta) {
                    Some(path) => r.album_art_path matches Some(p) && p@ == path,
                    None => r.album_art_path is None,
                }
                &&& r.has_active_media
            },
            None => is_placeholder(r, state, *labels),
        },
{
    match metadata {
        Some(meta) => {
            let album_art_path = album_art_path_from_metadata(&meta);
            let title = match meta.title {
                Some(title) => title,
                None => labels.unknown_title.clone(),
            };
            let artist = match &meta.artists {
                Some(artists) => if artists.len() > 0 {
                    artists[0].clone()
                } else {
                    labels.unknown_artist.clone()
                },
                None => labels.unknown_artist.clone(),
            };
            let mut text = title.clone();
            text.append(" - ");
            text.append(artist.as_str());
            NowPlayingData { text, title, artist, state, album_art_path, has_active_media: true }
        },
        None => nothing_playing(state, labels),
    }
}

/// The placeholder for a player in `state` that shows nothing.
pub fn nothing_playing(state: PlaybackState, labels: &Labels) -> (r: NowPlayingData)
    ensures
        is_placeholder(r, state, *labels),
{
    NowPlayingData {
        text: labels.nothing_playing.clone(),
        title: labels.nothing_playing.clone(),
        artist: String::new(),
        state,
        album_art_path: None,
        has_active_media: false,
    }
}

} // verus!
