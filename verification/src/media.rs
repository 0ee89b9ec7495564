//! What the applet decides about media players on the session bus: which bus events call
//! for a new scan, when a scan is worth sending on, how a player's metadata is shown, and
//! how an album-art URL becomes a local path.
use vstd::prelude::*;
use vstd::string::*;

use crate::model::{
    first_index, lemma_first_index, nothing_playing_view, path_view, MediaSnapshot,
    NowPlayingData, NowPlayingView, PlaybackState, PlayerView, same_players,
};
use crate::player::{escape_all, escape_byte, hex_digit, hex_digit_value};
use crate::text::{str_eq, str_starts_with};

verus! {

/// The object path at which MPRIS players serve their interfaces.
pub const MPRIS_PATH: &'static str = "/org/mpris/MediaPlayer2";

/// The interface whose properties describe playback.
pub const MPRIS_PLAYER_INTERFACE: &'static str = "org.mpris.MediaPlayer2.Player";

/// The prefix of every MPRIS player's bus name.
pub const MPRIS_PLAYER_PREFIX: &'static str = "org.mpris.MediaPlayer2.";

/// The property that holds the track's metadata.
pub const METADATA_PROPERTY: &'static str = "Metadata";

/// The property that holds the playback status.
pub const PLAYBACK_STATUS_PROPERTY: &'static str = "PlaybackStatus";

/// A transport command for the selected player.
#[derive(Clone, Copy, Debug, PartialEq, Eq, Structural)]
pub enum MediaCommand {
    Previous,
    TogglePlayPause,
    Next,
}

/// Whether `name` is one of `names`.
pub open spec fn names_contain(names: Seq<String>, name: Seq<char>) -> bool {
    exists|i: int| 0 <= i < names.len() && (#[trigger] names[i])@ == name
}

/// Whether one of `names` equals `name`.
pub fn contains_name(names: &[String], name: &str) -> (r: bool)
    ensures
        r == names_contain(names@, name@),
{
    let mut i: usize = 0;
    while i < names.len()
        invariant
            i <= names.len(),
            forall|j: int| 0 <= j < i ==> (#[trigger] names@[j])@ != name@,
        decreases names.len() - i,
    {
        if str_eq(names[i].as_str(), name) {
            return true;
        }
        i += 1;
    }
    false
}

/// Whether a `PropertiesChanged` signal concerns what the applet shows: it comes from the
/// player interface, and the metadata or the playback status changed or was invalidated.
/// `changed_properties` are the names of the changed properties.
pub fn is_relevant_properties_change(
    interface_name: &str,
    changed_properties: &[String],
    invalidated_properties: &[String],
) -> (r: bool)
    ensures
        r == (interface_name@ == MPRIS_PLAYER_INTERFACE@ && (names_contain(
            changed_properties@,
            METADATA_PROPERTY@,
        ) || names_contain(invalidated_properties@, METADATA_PROPERTY@) || names_contain(
            changed_properties@,
            PLAYBACK_STATUS_PROPERTY@,
        ) || names_contain(invalidated_properties@, PLAYBACK_STATUS_PROPERTY@))),
{
    str_eq(interface_name, MPRIS_PLAYER_INTERFACE) && (contains_name(
        changed_properties,
        METADATA_PROPERTY,
    ) || contains_name(invalidated_properties, METADATA_PROPERTY) || contains_name(
        changed_properties,
        PLAYBACK_STATUS_PROPERTY,
    ) || contains_name(invalidated_properties, PLAYBACK_STATUS_PROPERTY))
}

/// Whether a `NameOwnerChanged` signal means that an MPRIS player appeared, went away or
/// moved: the name is a player's, and its owner changed.
pub fn is_mpris_owner_change(name: &str, old_owner: &str, new_owner: &str) -> (r: bool)
    ensures
        r == (MPRIS_PLAYER_PREFIX.spec_bytes().is_prefix_of(name.spec_bytes()) && old_owner@
            != new_owner@),
{
    str_starts_with(name, MPRIS_PLAYER_PREFIX) && !str_eq(old_owner, new_owner)
}

/// Whether a scan differs from the last one sent on, so that it is worth sending: there
/// was none, or it listed other players or other states.
pub fn snapshot_has_changed(last_sent: &Option<MediaSnapshot>, snapshot: &MediaSnapshot) -> (r:
    bool)
    ensures
        r == !(last_sent matches Some(last) && same_players(last@, snapshot@)),
{
    match last_sent {
        Some(last) => !last.same_as(snapshot),
        None => true,
    }
}

/// Whether a byte is an ASCII hexadecimal digit.
pub open spec fn is_hex_digit(b: u8) -> bool {
    (0x30 <= b <= 0x39) || (0x41 <= b <= 0x46) || (0x61 <= b <= 0x66)
}

/// Whether every `%` in `bytes` starts an escape: two hexadecimal digits follow it.
pub open spec fn valid_percent_encoding(bytes: Seq<u8>) -> bool {
    forall|i: int|
        0 <= i < bytes.len() && #[trigger] bytes[i] == 0x25 ==> i + 2 < bytes.len()
            && is_hex_digit(bytes[i + 1]) && is_hex_digit(bytes[i + 2])
}

fn is_ascii_hex_digit(b: u8) -> (r: bool)
    ensures
        r == is_hex_digit(b),
{
    (0x30 <= b && b <= 0x39) || (0x41 <= b && b <= 0x46) || (0x61 <= b && b <= 0x66)
}

/// Whether every `%` in `value` is followed by two hexadecimal digits.
pub fn has_valid_percent_encoding(value: &str) -> (r: bool)
    ensures
        r == valid_percent_encoding(value.spec_bytes()),
{
    let bytes = value.as_bytes();
    let mut index: usize = 0;
    while index < bytes.len()
        invariant
            bytes@ == value.spec_bytes(),
            index <= bytes@.len(),
            forall|i: int|
                0 <= i < index && #[trigger] bytes@[i] == 0x25 ==> i + 2 < bytes@.len()
                    && is_hex_digit(bytes@[i + 1]) && is_hex_digit(bytes@[i + 2]),
        decreases bytes.len() - index,
    {
        if bytes[index] == 0x25 {
            if bytes.len() - index <= 2 || !is_ascii_hex_digit(bytes[index + 1])
                || !is_ascii_hex_digit(bytes[index + 2]) {
                assert(value.spec_bytes()[index as int] == 0x25);
                return false;
            }
            index += 3;
        } else {
            index += 1;
        }
    }
    true
}

/// The local path that `url::Url` finds in a string: for one that parses as a URL with a
/// hierarchical path and no host other than `localhost`, the bytes of that path with the
/// escapes of each segment decoded; none otherwise. The scheme is not looked at, so
/// `unix:/tmp/x` gives `/tmp/x` as well.
pub uninterp spec fn url_file_path(url: Seq<char>) -> Option<Seq<u8>>;

/// The local path of a URL as `file_url_to_path` finds it: none when a `%` starts no
/// valid escape, else what `url::Url` finds.
pub open spec fn file_url_path(url: Seq<char>) -> Option<Seq<u8>> {
    if valid_percent_encoding(vstd::utf8::encode_utf8(url)) {
        url_file_path(url)
    } else {
        None
    }
}

/// Parses `value` with `url::Url::parse` and turns the result into a path with
/// `url::Url::to_file_path`, giving the path's bytes. Claimed: the result is
/// `url_file_path` of the characters of `value`, a function of them alone, and a path
/// that is returned is absolute: it starts with `/`, as each path segment is written after
/// a slash.
#[verifier::external_body]
fn parse_file_url(value: &str) -> (r: Option<Vec<u8>>)
    ensures
        path_view(r) == url_file_path(value@),
        r matches Some(p) ==> p@.len() > 0 && p@[0] == 0x2F,
{
    let url = url::Url::parse(value).ok()?;
    let path = url.to_file_path().ok()?;
    Some(path.into_os_string().into_encoded_bytes())
}

/// The local file that an album-art URL names, as raw path bytes; none for a URL with a
/// broken `%` escape, one that does not parse, one with a host other than `localhost`, or
/// one without a hierarchical path. As with `url::Url::to_file_path`, the scheme itself is
/// not checked.
pub fn file_url_to_path(value: &str) -> (r: Option<Vec<u8>>)
    ensures
        path_view(r) == file_url_path(value@),
        r matches Some(p) ==> p@.len() > 0 && p@[0] == 0x2F,
{
    if !has_valid_percent_encoding(value) {
        return None;
    }
    parse_file_url(value)
}

/// What a player's metadata holds that the applet shows.
#[derive(Clone, Debug, PartialEq, Eq)]
pub struct TrackMetadata {
    pub title: Option<String>,
    pub artists: Option<Vec<String>>,
    pub art_url: Option<String>,
    /// Whether the metadata holds no entries at all.
    pub is_empty: bool,
}

/// The localized texts that stand in for missing information.
#[derive(Clone, Debug, PartialEq, Eq)]
pub struct Labels {
    pub nothing_playing: String,
    pub unknown_title: String,
    pub unknown_artist: String,
}

/// The title to show: the track's, else the "unknown title" label.
pub open spec fn shown_title(m: TrackMetadata, labels: Labels) -> Seq<char> {
    match m.title {
        Some(t) => t@,
        None => labels.unknown_title@,
    }
}

/// The artist to show: the first listed, else the "unknown artist" label.
pub open spec fn shown_artist(m: TrackMetadata, labels: Labels) -> Seq<char> {
    match m.artists {
        Some(a) => if a@.len() > 0 {
            a@[0]@
        } else {
            labels.unknown_artist@
        },
        None => labels.unknown_artist@,
    }
}

/// The local album art of a track, when its art URL names a local file.
pub open spec fn shown_art_path(m: TrackMetadata) -> Option<Seq<u8>> {
    match m.art_url {
        Some(u) => file_url_path(u@),
        None => None,
    }
}

/// What is shown for a player in `state` whose metadata was read as `metadata` (none when
/// it could not be read): the placeholder when there is no metadata or it is empty, else
/// "title - artist" with the art.
pub open spec fn now_playing_view(
    state: PlaybackState,
    metadata: Option<TrackMetadata>,
    labels: Labels,
) -> NowPlayingView {
    match metadata {
        Some(m) => if m.is_empty {
            NowPlayingView { state, ..nothing_playing_view(labels.nothing_playing@) }
        } else {
            NowPlayingView {
                text: shown_title(m, labels) + " - "@ + shown_artist(m, labels),
                title: shown_title(m, labels),
                artist: shown_artist(m, labels),
                state,
                album_art_path: shown_art_path(m),
                has_usable_metadata: true,
            }
        },
        None => NowPlayingView { state, ..nothing_playing_view(labels.nothing_playing@) },
    }
}

/// The shown data of a player in `state` whose metadata was read as `metadata` (none when
/// reading it failed).
pub fn now_playing(state: PlaybackState, metadata: Option<TrackMetadata>, labels: &Labels) -> (r:
    NowPlayingData)
    ensures
        r@ == now_playing_view(state, metadata, *labels),
{
    match metadata {
        Some(m) => {
            if m.is_empty {
                let mut shown = NowPlayingData::nothing_playing(labels.nothing_playing.clone());
                shown.state = state;
                return shown;
            }
            let album_art_path = match &m.art_url {
                Some(url) => file_url_to_path(url.as_str()),
                None => None,
            };
            let title = match m.title {
                Some(title) => title,
                None => labels.unknown_title.clone(),
            };
            let artist = match &m.artists {
                Some(artists) => if artists.len() > 0 {
                    artists[0].clone()
                } else {
                    labels.unknown_artist.clone()
                },
                None => labels.unknown_artist.clone(),
            };
            let mut text = title.clone();
            text.append(" - ");
            text.append(artist.as_str());
            NowPlayingData {
                text,
                title,
                artist,
                state,
                album_art_path,
                has_usable_metadata: true,
            }
        },
        None => {
            let mut shown = NowPlayingData::nothing_playing(labels.nothing_playing.clone());
            shown.state = state;
            shown
        },
    }
}

/// Whether a bus name is the given one.
pub open spec fn is_bus_name(name: Seq<char>) -> spec_fn(String) -> bool {
    |n: String| n@ == name
}

/// Where the selected player stands among the players found on the bus: the first one
/// with that bus name, if any.
pub fn find_bus_name(bus_names: &[String], selected: &str) -> (r: Option<usize>)
    ensures
        r matches Some(i) ==> i < bus_names@.len() && first_index(
            bus_names@,
            is_bus_name(selected@),
        ) == Some(i as int),
        r is None ==> first_index(bus_names@, is_bus_name(selected@)) is None,
{
    proof {
        lemma_first_index(bus_names@, is_bus_name(selected@));
    }
    let mut i: usize = 0;
    while i < bus_names.len()
        invariant
            i <= bus_names.len(),
            forall|j: int| 0 <= j < i ==> !is_bus_name(selected@)(#[trigger] bus_names@[j]),
            match first_index(bus_names@, is_bus_name(selected@)) {
                Some(k) => 0 <= k < bus_names@.len() && is_bus_name(selected@)(bus_names@[k]) && forall|j: int|
                    0 <= j < k ==> !is_bus_name(selected@)(#[trigger] bus_names@[j]),
                None => forall|j: int| 0 <= j < bus_names@.len() ==> !is_bus_name(selected@)(#[trigger] bus_names@[j]),
            },
        decreases bus_names.len() - i,
    {
        if str_eq(bus_names[i].as_str(), selected) {
            return Some(i);
        }
        i += 1;
    }
    None
}

/// The bytes that pass as hexadecimal digits are exactly the sixteen digits in upper and
/// lower case that escaping writes, and exactly the bytes that have a hexadecimal value.
pub proof fn lemma_hex_digits(b: u8)
    ensures
        forall|v: u8, upper: bool| v < 16 ==> is_hex_digit(#[trigger] hex_digit(v, upper)),
        is_hex_digit(b) ==> exists|v: u8, upper: bool| v < 16 && #[trigger] hex_digit(v, upper) == b,
        is_hex_digit(b) <==> hex_digit_value(b) is Some,
        is_hex_digit(b) ==> b != 0x25,
{
    if 0x30 <= b <= 0x39 {
        assert(hex_digit((b - 0x30) as u8, true) == b);
    } else if 0x41 <= b <= 0x46 {
        assert(hex_digit((b - 0x41 + 10) as u8, true) == b);
    } else if 0x61 <= b <= 0x66 {
        assert(hex_digit((b - 0x61 + 10) as u8, false) == b);
    }
}

/// Bytes without `%` pass the escape check.
pub proof fn lemma_plain_bytes_pass(bytes: Seq<u8>)
    requires
        forall|i: int| 0 <= i < bytes.len() ==> bytes[i] != 0x25,
    ensures
        valid_percent_encoding(bytes),
{
}

/// Two pieces that pass the escape check pass it one after the other.
pub proof fn lemma_valid_percent_encoding_concat(a: Seq<u8>, b: Seq<u8>)
    requires
        valid_percent_encoding(a),
        valid_percent_encoding(b),
    ensures
        valid_percent_encoding(a + b),
{
    let ab = a + b;
    assert forall|i: int|
        0 <= i < ab.len() && #[trigger] ab[i] == 0x25 implies i + 2 < ab.len() && is_hex_digit(
        ab[i + 1]) && is_hex_digit(ab[i + 2]) by {
        if i < a.len() {
            assert(a[i] == 0x25);
            assert(ab[i + 1] == a[i + 1] && ab[i + 2] == a[i + 2]);
        } else {
            assert(b[i - a.len()] == 0x25);
            assert(ab[i + 1] == b[i + 1 - a.len()] && ab[i + 2] == b[i + 2 - a.len()]);
        }
    }
}

/// Bytes written entirely as escapes pass the check, whatever the case of their digits:
/// every escape that escaping writes, `%A9` and `%99` among them, is well formed.
pub proof fn lemma_escaped_bytes_pass(bytes: Seq<u8>, upper: Seq<bool>)
    requires
        upper.len() == bytes.len(),
    ensures
        valid_percent_encoding(escape_all(bytes, upper)),
    decreases bytes.len(),
{
    if bytes.len() > 0 {
        let b = bytes[0];
        let head = escape_byte(b, upper[0]);
        lemma_hex_digits(head[1]);
        lemma_hex_digits(head[2]);
        assert(is_hex_digit(hex_digit(b / 16, upper[0])));
        assert(is_hex_digit(hex_digit(b % 16, upper[0])));
        assert(valid_percent_encoding(head));
        lemma_escaped_bytes_pass(bytes.drop_first(), upper.drop_first());
        lemma_valid_percent_encoding_concat(head, escape_all(bytes.drop_first(), upper.drop_first()));
    }
}

/// What is shown for a player with non-empty metadata: the title, else the "unknown
/// title" label; the first listed artist, else (no list, or an empty one) the "unknown
/// artist" label; "title - artist" as text; the state; the local art; usable metadata.
pub proof fn lemma_now_playing_shows_track(state: PlaybackState, m: TrackMetadata, labels: Labels)
    requires
        !m.is_empty,
    ensures
        ({
            let v = now_playing_view(state, Some(m), labels);
            &&& v.title == match m.title {
                Some(t) => t@,
                None => labels.unknown_title@,
            }
            &&& v.artist == match m.artists {
                Some(a) => if a@.len() > 0 {
                    a@[0]@
                } else {
                    labels.unknown_artist@
                },
                None => labels.unknown_artist@,
            }
            &&& v.text == v.title + " - "@ + v.artist
            &&& v.state == state
            &&& v.album_art_path == match m.art_url {
                Some(u) => file_url_path(u@),
                None => None,
            }
            &&& v.has_usable_metadata
        }),
{
}

/// Without metadata, or with empty metadata, the placeholder is shown: the "nothing
/// playing" label as text and title, no artist, no art, no usable metadata, and the
/// player's state.
pub proof fn lemma_now_playing_placeholder(
    state: PlaybackState,
    metadata: Option<TrackMetadata>,
    labels: Labels,
)
    requires
        metadata matches Some(m) ==> m.is_empty,
    ensures
        ({
            let v = now_playing_view(state, metadata, labels);
            &&& v.text == labels.nothing_playing@
            &&& v.title == labels.nothing_playing@
            &&& v.artist.len() == 0
            &&& v.state == state
            &&& v.album_art_path is None
            &&& !v.has_usable_metadata
        }),
{
}

/// Why a command could not be sent to a player.
#[derive(Clone, Debug, PartialEq, Eq)]
pub enum CommandError {
    /// No player is selected.
    NoPlayerSelected,
    /// The selected player, with this bus name, is no longer on the bus.
    PlayerDisappeared(String),
}

impl CommandError {
    /// The message that reports the error.
    pub fn message(&self) -> (r: String)
        ensures
            r@ == match self {
                CommandError::NoPlayerSelected => "no media player is selected"@,
                CommandError::PlayerDisappeared(name) => "selected MPRIS player disappeared: "@
                    + name@,
            },
    {
        match self {
            CommandError::NoPlayerSelected => String::from_str("no media player is selected"),
            CommandError::PlayerDisappeared(name) => {
                let mut message = String::from_str("selected MPRIS player disappeared: ");
                message.append(name.as_str());
                message
            },
        }
    }
}

/// The bus name that a command goes to: the selected player's; an error when none is
/// selected.
pub fn require_selection(selected_player: Option<&str>) -> (r: Result<&str, CommandError>)
    ensures
        match selected_player {
            Some(name) => r == Ok::<&str, CommandError>(name),
            None => r == Err::<&str, CommandError>(CommandError::NoPlayerSelected),
        },
{
    match selected_player {
        Some(name) => Ok(name),
        None => Err(CommandError::NoPlayerSelected),
    }
}

/// Which of the players on the bus a command goes to: the first with the selected bus
/// name; an error naming it when it is gone.
pub fn command_target(selected: &str, bus_names: &[String]) -> (r: Result<usize, CommandError>)
    ensures
        match first_index(bus_names@, is_bus_name(selected@)) {
            Some(i) => r == Ok::<usize, CommandError>(i as usize) && i < bus_names@.len(),
            None => r matches Err(CommandError::PlayerDisappeared(name)) && name@ == selected@,
        },
{
    match find_bus_name(bus_names, selected) {
        Some(index) => Ok(index),
        None => Err(CommandError::PlayerDisappeared(String::from_str(selected))),
    }
}

/// What the bus monitor remembers: the last scan it sent on, and the scan being sent.
#[derive(Debug)]
pub struct MonitorState {
    pub last_sent: Option<MediaSnapshot>,
    pub pending: Option<MediaSnapshot>,
}

/// What the bus monitor learns from the work it asked for.
#[derive(Debug)]
pub enum MonitorEvent {
    /// The receiver of the scans is gone.
    OutputClosed,
    /// No connection to the bus or to the players could be made.
    ConnectFailed,
    /// Waiting for bus events failed.
    EventsFailed,
    /// Listing the players failed.
    ScanFailed,
    /// The players were listed.
    Scanned(MediaSnapshot),
    /// A wait ended without a relevant event.
    NoRefresh,
    /// A relevant event arrived.
    RefreshRequested,
    /// The pending scan was sent on.
    Sent,
    /// The pending scan could not be sent on.
    SendFailed,
}

/// The work that the bus monitor asks for next.
#[derive(Debug)]
pub enum MonitorAction {
    /// Connect to the bus, subscribe to its signals and list the players.
    Connect,
    /// Wait for the next batch of bus events.
    Wait,
    /// List the players again.
    Scan,
    /// Send this scan on.
    Send(MediaSnapshot),
    /// Wait a moment, then connect again.
    SleepThenConnect,
    /// Stop monitoring.
    Stop,
}

/// The models of an optional scan.
pub open spec fn snapshot_view(s: Option<MediaSnapshot>) -> Option<Seq<PlayerView>> {
    match s {
        Some(s) => Some(s@),
        None => None,
    }
}

/// The mathematical model of [`MonitorState`].
pub struct MonitorView {
    pub last_sent: Option<Seq<PlayerView>>,
    pub pending: Option<Seq<PlayerView>>,
}

impl View for MonitorState {
    type V = MonitorView;

    open spec fn view(&self) -> MonitorView {
        MonitorView { last_sent: snapshot_view(self.last_sent), pending: snapshot_view(self.pending) }
    }
}

/// The mathematical model of [`MonitorAction`].
pub enum MonitorStep {
    Connect,
    Wait,
    Scan,
    Send(Seq<PlayerView>),
    SleepThenConnect,
    Stop,
}

impl View for MonitorAction {
    type V = MonitorStep;

    open spec fn view(&self) -> MonitorStep {
        match self {
            MonitorAction::Connect => MonitorStep::Connect,
            MonitorAction::Wait => MonitorStep::Wait,
            MonitorAction::Scan => MonitorStep::Scan,
            MonitorAction::Send(s) => MonitorStep::Send(s@),
            MonitorAction::SleepThenConnect => MonitorStep::SleepThenConnect,
            MonitorAction::Stop => MonitorStep::Stop,
        }
    }
}

/// What the monitor remembers and does after an event. A closed receiver or a failed send
/// stops it; a failure of the bus reconnects after a pause; a relevant event calls for a
/// scan; a scan is sent on only when it differs from the last one sent, and becomes the
/// last one once it is sent.
pub open spec fn monitor_next(s: MonitorView, event: MonitorEvent) -> (MonitorView, MonitorStep) {
    match event {
        MonitorEvent::OutputClosed | MonitorEvent::SendFailed => (s, MonitorStep::Stop),
        MonitorEvent::ConnectFailed | MonitorEvent::EventsFailed | MonitorEvent::ScanFailed => (
            s,
            MonitorStep::SleepThenConnect,
        ),
        MonitorEvent::NoRefresh => (s, MonitorStep::Wait),
        MonitorEvent::RefreshRequested => (s, MonitorStep::Scan),
        MonitorEvent::Scanned(snapshot) => if s.last_sent matches Some(last) && same_players(
            last,
            snapshot@,
        ) {
            (s, MonitorStep::Wait)
        } else {
            (MonitorView { pending: Some(snapshot@), ..s }, MonitorStep::Send(snapshot@))
        },
        MonitorEvent::Sent => (
            MonitorView {
                last_sent: if s.pending is Some {
                    s.pending
                } else {
                    s.last_sent
                },
                pending: None,
            },
            MonitorStep::Wait,
        ),
    }
}

impl MonitorState {
    /// A monitor that has sent nothing yet.
    pub fn new() -> (r: Self)
        ensures
            r@ == (MonitorView { last_sent: None, pending: None }),
    {
        MonitorState { last_sent: None, pending: None }
    }

    /// What the monitor does first: connect.
    pub fn start(&self) -> (r: MonitorAction)
        ensures
            r is Connect,
    {
        MonitorAction::Connect
    }

    /// Takes in what the last piece of work found and asks for the next, as
    /// `monitor_next` describes.
    pub fn step(&mut self, event: MonitorEvent) -> (r: MonitorAction)
        ensures
            (final(self)@, r@) == monitor_next(old(self)@, event),
    {
        match event {
            MonitorEvent::OutputClosed | MonitorEvent::SendFailed => MonitorAction::Stop,
            MonitorEvent::ConnectFailed | MonitorEvent::EventsFailed | MonitorEvent::ScanFailed => {
                MonitorAction::SleepThenConnect
            },
            MonitorEvent::NoRefresh => MonitorAction::Wait,
            MonitorEvent::RefreshRequested => MonitorAction::Scan,
            MonitorEvent::Scanned(snapshot) => {
                if snapshot_has_changed(&self.last_sent, &snapshot) {
                    self.pending = Some(snapshot.duplicate());
                    MonitorAction::Send(snapshot)
                } else {
                    MonitorAction::Wait
                }
            },
            MonitorEvent::Sent => {
                let pending = self.pending.take();
                if pending.is_some() {
                    self.last_sent = pending;
                }
                MonitorAction::Wait
            },
        }
    }
}

/// A scan that was sent on is not sent again: once it is sent, the same scan afterwards
/// only leads to waiting for events.
pub proof fn lemma_sent_scan_not_sent_again(
    s: MonitorView,
    scan: MediaSnapshot,
    again: MediaSnapshot,
)
    requires
        !(s.last_sent matches Some(last) && same_players(last, scan@)),
        same_players(scan@, again@),
    ensures
        ({
            let (after_scan, first) = monitor_next(s, MonitorEvent::Scanned(scan));
            let (after_send, _) = monitor_next(after_scan, MonitorEvent::Sent);
            let (_, second) = monitor_next(after_send, MonitorEvent::Scanned(again));
            second is Wait
        }),
{
}

/// A scan that differs from the last one sent on is always sent on.
pub proof fn lemma_changed_scan_is_sent(s: MonitorView, scan: MediaSnapshot)
    requires
        !(s.last_sent matches Some(last) && same_players(last, scan@)),
    ensures
        monitor_next(s, MonitorEvent::Scanned(scan)).1 == MonitorStep::Send(scan@),
{
}

/// Runs the monitor through `events` from state `s`: its final state, and the scans that
/// it sent on and saw delivered, in order.
pub open spec fn monitor_run(s: MonitorView, events: Seq<MonitorEvent>) -> (
    MonitorView,
    Seq<Seq<PlayerView>>,
)
    decreases events.len(),
{
    if events.len() == 0 {
        (s, Seq::empty())
    } else {
        let (before, sent) = monitor_run(s, events.drop_last());
        let after = monitor_next(before, events.last()).0;
        if events.last() is Sent && before.pending is Some {
            (after, sent.push(before.pending->0))
        } else {
            (after, sent)
        }
    }
}

/// The monitor that has sent nothing yet.
pub open spec fn fresh_monitor() -> MonitorView {
    MonitorView { last_sent: None, pending: None }
}

/// What a run from a fresh monitor keeps: the last scan delivered is the one remembered,
/// a pending scan differs from it, and no two scans delivered one after the other are
/// the same.
pub open spec fn run_invariant(s: MonitorView, sent: Seq<Seq<PlayerView>>) -> bool {
    &&& (sent.len() == 0 ==> s.last_sent is None)
    &&& (sent.len() > 0 ==> s.last_sent == Some(sent.last()))
    &&& (s.pending matches Some(p) ==> !(s.last_sent matches Some(l) && same_players(l, p)))
    &&& forall|k: int| 0 <= k < sent.len() - 1 ==> !same_players(#[trigger] sent[k], sent[k + 1])
}

proof fn lemma_monitor_run_invariant(events: Seq<MonitorEvent>)
    ensures
        run_invariant(monitor_run(fresh_monitor(), events).0, monitor_run(fresh_monitor(), events).1),
    decreases events.len(),
{
    if events.len() > 0 {
        lemma_monitor_run_invariant(events.drop_last());
        let (before, sent) = monitor_run(fresh_monitor(), events.drop_last());
        if events.last() is Sent && before.pending is Some {
            let grown = sent.push(before.pending->0);
            assert forall|k: int| 0 <= k < grown.len() - 1 implies !same_players(
                #[trigger] grown[k],
                grown[k + 1],
            ) by {
                if k < sent.len() - 1 {
                    assert(grown[k] == sent[k] && grown[k + 1] == sent[k + 1]);
                } else {
                    assert(grown[k] == sent.last());
                }
            }
        }
    }
}

/// However the bus behaves, and across reconnections, a monitor never delivers the same
/// scan twice in a row: of the scans it sends on and sees delivered, no two consecutive
/// ones are the same.
pub proof fn lemma_no_two_equal_scans_in_a_row(events: Seq<MonitorEvent>)
    ensures
        ({
            let sent = monitor_run(fresh_monitor(), events).1;
            forall|k: int|
                0 <= k < sent.len() - 1 ==> !same_players(#[trigger] sent[k], sent[k + 1])
        }),
{
    lemma_monitor_run_invariant(events);
}

} // verus!
