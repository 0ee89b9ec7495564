//! The applet's state: the players that were found, which one is shown, and the popup page.
use vstd::prelude::*;
use vstd::slice::slice_to_vec;

use crate::settings::AppSettings;
use crate::path::{same_path, same_path_view};

verus! {

/// What a player reports about playback.
#[derive(Clone, Copy, Debug, PartialEq, Eq, Structural)]
pub enum PlaybackState {
    Playing,
    Paused,
    Stopped,
    Unknown,
}

impl Default for PlaybackState {
    fn default() -> (r: Self)
        ensures
            r == PlaybackState::Unknown,
    {
        PlaybackState::Unknown
    }
}

/// What one player is playing, ready to be shown.
#[derive(Clone, Debug, PartialEq, Eq)]
pub struct NowPlayingData {
    pub text: String,
    pub title: String,
    pub artist: String,
    pub state: PlaybackState,
    /// The raw bytes of the local file that holds the album art.
    pub album_art_path: Option<Vec<u8>>,
    pub has_usable_metadata: bool,
}

/// The mathematical model of [`NowPlayingData`].
pub struct NowPlayingView {
    pub text: Seq<char>,
    pub title: Seq<char>,
    pub artist: Seq<char>,
    pub state: PlaybackState,
    pub album_art_path: Option<Seq<u8>>,
    pub has_usable_metadata: bool,
}

pub open spec fn path_view(path: Option<Vec<u8>>) -> Option<Seq<u8>> {
    match path {
        Some(p) => Some(p@),
        None => None,
    }
}

impl View for NowPlayingData {
    type V = NowPlayingView;

    open spec fn view(&self) -> NowPlayingView {
        NowPlayingView {
            text: self.text@,
            title: self.title@,
            artist: self.artist@,
            state: self.state,
            album_art_path: path_view(self.album_art_path),
            has_usable_metadata: self.has_usable_metadata,
        }
    }
}

/// What is shown when no player is selected or the player has nothing to show:
/// the placeholder label as text and title, no artist, stopped, no art.
pub open spec fn nothing_playing_view(label: Seq<char>) -> NowPlayingView {
    NowPlayingView {
        text: label,
        title: label,
        artist: Seq::empty(),
        state: PlaybackState::Stopped,
        album_art_path: None,
        has_usable_metadata: false,
    }
}

/// A copy of an optional path.
pub fn copy_path(path: &Option<Vec<u8>>) -> (r: Option<Vec<u8>>)
    ensures
        path_view(r) == path_view(*path),
{
    match path {
        Some(p) => Some(slice_to_vec(p.as_slice())),
        None => None,
    }
}

impl NowPlayingData {
    /// The placeholder shown when nothing is playing; `label` is the localized
    /// "nothing playing" text.
    pub fn nothing_playing(label: String) -> (r: Self)
        ensures
            r@ == nothing_playing_view(label@),
    {
        NowPlayingData {
            text: label.clone(),
            title: label,
            artist: String::new(),
            state: PlaybackState::Stopped,
            album_art_path: None,
            has_usable_metadata: false,
        }
    }

    /// A copy with the same content.
    pub fn duplicate(&self) -> (r: Self)
        ensures
            r@ == self@,
    {
        NowPlayingData {
            text: self.text.clone(),
            title: self.title.clone(),
            artist: self.artist.clone(),
            state: self.state,
            album_art_path: copy_path(&self.album_art_path),
            has_usable_metadata: self.has_usable_metadata,
        }
    }
}

/// One media player on the bus.
#[derive(Clone, Debug, PartialEq, Eq)]
pub struct PlayerInfo {
    pub id: String,
    pub identity: String,
    pub now_playing: NowPlayingData,
}

/// The mathematical model of [`PlayerInfo`].
pub struct PlayerView {
    pub id: Seq<char>,
    pub identity: Seq<char>,
    pub now_playing: NowPlayingView,
}

impl View for PlayerInfo {
    type V = PlayerView;

    open spec fn view(&self) -> PlayerView {
        PlayerView { id: self.id@, identity: self.identity@, now_playing: self.now_playing@ }
    }
}

impl PlayerInfo {
    /// The track line shown for this player in the player list: its text when it has
    /// usable metadata, else nothing.
    pub fn track(&self) -> (r: &str)
        ensures
            r@ == (if self.now_playing.has_usable_metadata {
                self.now_playing.text@
            } else {
                Seq::<char>::empty()
            }),
    {
        if self.now_playing.has_usable_metadata {
            self.now_playing.text.as_str()
        } else {
            proof {
                reveal_strlit("");
            }
            ""
        }
    }

    /// A copy with the same content.
    pub fn duplicate(&self) -> (r: Self)
        ensures
            r@ == self@,
    {
        PlayerInfo {
            id: self.id.clone(),
            identity: self.identity.clone(),
            now_playing: self.now_playing.duplicate(),
        }
    }
}

/// The players seen in one scan of the bus.
#[derive(Clone, Debug, PartialEq, Eq)]
pub struct MediaSnapshot {
    pub players: Vec<PlayerInfo>,
}

/// The models of a sequence of players, in order.
pub open spec fn players_view(players: Seq<PlayerInfo>) -> Seq<PlayerView> {
    players.map_values(|p: PlayerInfo| p@)
}

impl View for MediaSnapshot {
    type V = Seq<PlayerView>;

    open spec fn view(&self) -> Seq<PlayerView> {
        players_view(self.players@)
    }
}

impl Default for MediaSnapshot {
    fn default() -> (r: Self)
        ensures
            r@ == Seq::<PlayerView>::empty(),
    {
        let r = MediaSnapshot { players: Vec::new() };
        assert(r@ =~= Seq::<PlayerView>::empty());
        r
    }
}

/// Whether two tracks are shown the same way: equal texts, state and flag, and art paths
/// that are the same path.
pub open spec fn same_track(a: NowPlayingView, b: NowPlayingView) -> bool {
    &&& a.text == b.text
    &&& a.title == b.title
    &&& a.artist == b.artist
    &&& a.state == b.state
    &&& same_path_view(a.album_art_path, b.album_art_path)
    &&& a.has_usable_metadata == b.has_usable_metadata
}

/// Whether two players are the same player in the same state.
pub open spec fn same_player(a: PlayerView, b: PlayerView) -> bool {
    &&& a.id == b.id
    &&& a.identity == b.identity
    &&& same_track(a.now_playing, b.now_playing)
}

/// Whether two scans list the same players in the same order and state; this is how the
/// scans compare as values, art paths being compared as paths.
pub open spec fn same_players(a: Seq<PlayerView>, b: Seq<PlayerView>) -> bool {
    &&& a.len() == b.len()
    &&& forall|i: int| 0 <= i < a.len() ==> same_player(#[trigger] a[i], b[i])
}

impl NowPlayingData {
    /// Whether both describe the same track in the same way.
    pub fn same_as(&self, other: &NowPlayingData) -> (r: bool)
        ensures
            r == same_track(self@, other@),
    {
        self.text == other.text && self.title == other.title && self.artist == other.artist
            && self.state == other.state && same_path(&self.album_art_path, &other.album_art_path)
            && self.has_usable_metadata == other.has_usable_metadata
    }
}

impl PlayerInfo {
    /// Whether both describe the same player in the same state.
    pub fn same_as(&self, other: &PlayerInfo) -> (r: bool)
        ensures
            r == same_player(self@, other@),
    {
        self.id == other.id && self.identity == other.identity && self.now_playing.same_as(
            &other.now_playing,
        )
    }
}

impl MediaSnapshot {
    /// A copy with the same content.
    pub fn duplicate(&self) -> (r: Self)
        ensures
            r@ == self@,
    {
        let mut players: Vec<PlayerInfo> = Vec::with_capacity(self.players.len());
        let mut i: usize = 0;
        while i < self.players.len()
            invariant
                i <= self.players.len(),
                players@.len() == i,
                forall|j: int| 0 <= j < i ==> (#[trigger] players@[j])@ == self.players@[j]@,
            decreases self.players.len() - i,
        {
            players.push(self.players[i].duplicate());
            i += 1;
        }
        let r = MediaSnapshot { players };
        assert(r@ =~= self@);
        r
    }

    /// Whether both list the same players, in the same order and state.
    pub fn same_as(&self, other: &MediaSnapshot) -> (r: bool)
        ensures
            r == same_players(self@, other@),
    {
        if self.players.len() != other.players.len() {
            assert(self@.len() != other@.len());
            return false;
        }
        let mut i: usize = 0;
        while i < self.players.len()
            invariant
                i <= self.players.len() == other.players.len(),
                forall|j: int| 0 <= j < i ==> same_player(#[trigger] self@[j], other@[j]),
            decreases self.players.len() - i,
        {
            assert(self@[i as int] == self.players@[i as int]@);
            assert(other@[i as int] == other.players@[i as int]@);
            if !self.players[i].same_as(&other.players[i]) {
                return false;
            }
            i += 1;
        }
        true
    }
}

/// The page that the popup shows.
#[derive(Clone, Copy, Debug, PartialEq, Eq, Structural)]
pub enum PopupPage {
    Main,
    PlayerList,
    Settings,
}

impl Default for PopupPage {
    fn default() -> (r: Self)
        ensures
            r == PopupPage::Main,
    {
        PopupPage::Main
    }
}

/// The index of the first element of `s` that satisfies `pred`, if any.
pub open spec fn first_index<A>(s: Seq<A>, pred: spec_fn(A) -> bool) -> Option<int>
    decreases s.len(),
{
    if s.len() == 0 {
        None
    } else if pred(s[0]) {
        Some(0)
    } else {
        match first_index(s.drop_first(), pred) {
            Some(i) => Some(i + 1),
            None => None,
        }
    }
}

/// `first_index` finds the first element that satisfies the predicate, or reports that none does.
pub proof fn lemma_first_index<A>(s: Seq<A>, pred: spec_fn(A) -> bool)
    ensures
        match first_index(s, pred) {
            Some(i) => 0 <= i < s.len() && pred(s[i]) && forall|j: int|
                0 <= j < i ==> !pred(#[trigger] s[j]),
            None => forall|j: int| 0 <= j < s.len() ==> !pred(#[trigger] s[j]),
        },
    decreases s.len(),
{
    if s.len() > 0 && !pred(s[0]) {
        lemma_first_index(s.drop_first(), pred);
        match first_index(s.drop_first(), pred) {
            Some(i) => {
                assert forall|j: int| 0 <= j < i + 1 implies !pred(#[trigger] s[j]) by {
                    if j > 0 {
                        assert(s[j] == s.drop_first()[j - 1]);
                    }
                }
            },
            None => {
                assert forall|j: int| 0 <= j < s.len() implies !pred(#[trigger] s[j]) by {
                    if j > 0 {
                        assert(s[j] == s.drop_first()[j - 1]);
                    }
                }
            },
        }
    }
}

pub open spec fn is_playing(p: PlayerView) -> bool {
    p.now_playing.state == PlaybackState::Playing
}

pub open spec fn has_usable_metadata(p: PlayerView) -> bool {
    p.now_playing.has_usable_metadata
}

pub open spec fn playing_pred() -> spec_fn(PlayerView) -> bool {
    |p: PlayerView| is_playing(p)
}

pub open spec fn usable_pred() -> spec_fn(PlayerView) -> bool {
    |p: PlayerView| has_usable_metadata(p)
}

pub open spec fn has_id(id: Seq<char>) -> spec_fn(PlayerView) -> bool {
    |p: PlayerView| p.id == id
}

/// Where the player with this id stands in the list: its first occurrence.
pub open spec fn position_of(players: Seq<PlayerView>, id: Seq<char>) -> Option<int> {
    first_index(players, has_id(id))
}

/// The player shown by default: the first that is playing, else the first with usable
/// metadata, else the first of all.
pub open spec fn preferred_index(players: Seq<PlayerView>) -> Option<int> {
    match first_index(players, playing_pred()) {
        Some(i) => Some(i),
        None => match first_index(players, usable_pred()) {
            Some(i) => Some(i),
            None => if players.len() > 0 {
                Some(0)
            } else {
                None
            },
        },
    }
}

/// The selection after a new list of players arrives: the old one while its player
/// is still there, else the preferred player's id, else none.
pub open spec fn selection_after(old: Option<Seq<char>>, players: Seq<PlayerView>) -> Option<
    Seq<char>,
> {
    if old is Some && position_of(players, old->0) is Some {
        old
    } else {
        match preferred_index(players) {
            Some(i) => Some(players[i].id),
            None => None,
        }
    }
}

/// What is shown for a selection: the selected player's track, else the placeholder.
pub open spec fn shown_now_playing(
    players: Seq<PlayerView>,
    selected: Option<Seq<char>>,
    label: Seq<char>,
) -> NowPlayingView {
    match selected {
        Some(id) => match position_of(players, id) {
            Some(i) => players[i].now_playing,
            None => nothing_playing_view(label),
        },
        None => nothing_playing_view(label),
    }
}

/// The model after a new list of players arrives: the list, the selection and what is
/// shown change; nothing else does.
pub open spec fn after_snapshot(m: AppModelView, players: Seq<PlayerView>) -> AppModelView {
    AppModelView {
        players,
        selected_player: selection_after(m.selected_player, players),
        now_playing: shown_now_playing(
            players,
            selection_after(m.selected_player, players),
            m.nothing_playing_label,
        ),
        ..m
    }
}

/// The model after a player is selected: the selection and what is shown change when a
/// player with that id is listed; otherwise nothing does.
pub open spec fn after_select(m: AppModelView, id: Seq<char>) -> AppModelView {
    if position_of(m.players, id) is Some {
        AppModelView {
            selected_player: Some(id),
            now_playing: shown_now_playing(m.players, Some(id), m.nothing_playing_label),
            ..m
        }
    } else {
        m
    }
}

/// The mathematical model of [`AppModel`].
pub struct AppModelView {
    pub now_playing: NowPlayingView,
    pub players: Seq<PlayerView>,
    pub selected_player: Option<Seq<char>>,
    pub popup_page: PopupPage,
    pub settings: AppSettings,
    pub nothing_playing_label: Seq<char>,
}

impl AppModelView {
    /// The model's invariant: a player is selected exactly when there are players, the
    /// selected one is among them, and what is shown is the selected player's track.
    pub open spec fn wf(self) -> bool {
        &&& (self.selected_player is None <==> self.players.len() == 0)
        &&& (self.selected_player matches Some(id) ==> position_of(self.players, id) is Some)
        &&& self.now_playing == shown_now_playing(
            self.players,
            self.selected_player,
            self.nothing_playing_label,
        )
    }
}

/// The applet's state.
#[derive(Debug)]
pub struct AppModel {
    pub now_playing: NowPlayingData,
    pub players: Vec<PlayerInfo>,
    pub selected_player: Option<String>,
    pub popup_page: PopupPage,
    pub settings: AppSettings,
    pub nothing_playing_label: String,
}

pub open spec fn selection_view(s: Option<String>) -> Option<Seq<char>> {
    match s {
        Some(id) => Some(id@),
        None => None,
    }
}

impl View for AppModel {
    type V = AppModelView;

    open spec fn view(&self) -> AppModelView {
        AppModelView {
            now_playing: self.now_playing@,
            players: players_view(self.players@),
            selected_player: selection_view(self.selected_player),
            popup_page: self.popup_page,
            settings: self.settings,
            nothing_playing_label: self.nothing_playing_label@,
        }
    }
}

/// The index of the first player with this id, as `position_of` describes.
pub fn find_player(players: &[PlayerInfo], id: &String) -> (r: Option<usize>)
    ensures
        r matches Some(i) ==> i < players@.len() && position_of(players_view(players@), id@)
            == Some(i as int),
        r is None ==> position_of(players_view(players@), id@) is None,
{
    let ghost v = players_view(players@);
    proof {
        lemma_first_index(v, has_id(id@));
    }
    let mut i: usize = 0;
    while i < players.len()
        invariant
            i <= players.len(),
            v == players_view(players@),
            forall|j: int| 0 <= j < i ==> !has_id(id@)(#[trigger] v[j]),
            match first_index(v, has_id(id@)) {
                Some(k) => 0 <= k < v.len() && has_id(id@)(v[k]) && forall|j: int|
                    0 <= j < k ==> !has_id(id@)(#[trigger] v[j]),
                None => forall|j: int| 0 <= j < v.len() ==> !has_id(id@)(#[trigger] v[j]),
            },
        decreases players.len() - i,
    {
        assert(v[i as int] == players@[i as int]@);
        if players[i].id == *id {
            return Some(i);
        }
        i += 1;
    }
    None
}

/// `preferred_index` names a listed player exactly when there are players.
pub proof fn lemma_preferred_index(players: Seq<PlayerView>)
    ensures
        preferred_index(players) is Some <==> players.len() > 0,
        preferred_index(players) matches Some(i) ==> 0 <= i < players.len(),
{
    lemma_first_index(players, playing_pred());
    lemma_first_index(players, usable_pred());
}

/// The player shown by default, as `preferred_index` describes.
pub fn preferred_player(players: &[PlayerInfo]) -> (r: Option<&PlayerInfo>)
    ensures
        match preferred_index(players_view(players@)) {
            Some(i) => r matches Some(p) && p@ == players_view(players@)[i],
            None => r is None,
        },
{
    let ghost v = players_view(players@);
    proof {
        lemma_first_index(v, playing_pred());
        lemma_first_index(v, usable_pred());
    }
    let mut i: usize = 0;
    while i < players.len()
        invariant
            i <= players.len(),
            v == players_view(players@),
            forall|j: int| 0 <= j < i ==> !playing_pred()(#[trigger] v[j]),
        decreases players.len() - i,
    {
        assert(v[i as int] == players@[i as int]@);
        if players[i].now_playing.state == PlaybackState::Playing {
            proof {
                lemma_first_index(v, playing_pred());
            }
            return Some(&players[i]);
        }
        i += 1;
    }
    proof {
        lemma_first_index(v, playing_pred());
    }
    let mut i: usize = 0;
    while i < players.len()
        invariant
            i <= players.len(),
            v == players_view(players@),
            first_index(v, playing_pred()) is None,
            forall|j: int| 0 <= j < i ==> !usable_pred()(#[trigger] v[j]),
        decreases players.len() - i,
    {
        assert(v[i as int] == players@[i as int]@);
        if players[i].now_playing.has_usable_metadata {
            proof {
                lemma_first_index(v, usable_pred());
            }
            return Some(&players[i]);
        }
        i += 1;
    }
    proof {
        lemma_first_index(v, usable_pred());
    }
    if players.len() > 0 {
        Some(&players[0])
    } else {
        None
    }
}

/// After a new list arrives, a player is selected exactly when there are players, and
/// the selected one is among them.
pub proof fn lemma_selection_after(old: Option<Seq<char>>, players: Seq<PlayerView>)
    ensures
        selection_after(old, players) is None <==> players.len() == 0,
        selection_after(old, players) matches Some(id) ==> position_of(players, id) is Some,
{
    lemma_preferred_index(players);
    if let Some(id) = old {
        lemma_first_index(players, has_id(id));
    }
    if let Some(i) = preferred_index(players) {
        lemma_first_index(players, has_id(players[i].id));
    }
}

impl AppModel {
    /// A model with the given settings that shows the preferred player of `snapshot`;
    /// `nothing_playing_label` is the localized placeholder text.
    pub fn new(settings: AppSettings, snapshot: MediaSnapshot, nothing_playing_label: String) -> (r:
        Self)
        ensures
            r@.wf(),
            r@.players == snapshot@,
            r@.selected_player == selection_after(None, snapshot@),
            r@.now_playing == shown_now_playing(
                snapshot@,
                selection_after(None, snapshot@),
                nothing_playing_label@,
            ),
            r@.popup_page == PopupPage::Main,
            r@.settings == settings,
            r@.nothing_playing_label == nothing_playing_label@,
    {
        let mut model = AppModel {
            now_playing: NowPlayingData::nothing_playing(nothing_playing_label.clone()),
            players: Vec::new(),
            selected_player: None,
            popup_page: PopupPage::Main,
            settings,
            nothing_playing_label,
        };
        model.apply_snapshot(snapshot);
        model
    }

    /// Takes in a new list of players. The selection stays while its player is still
    /// listed; otherwise the preferred player becomes selected.
    pub fn apply_snapshot(&mut self, snapshot: MediaSnapshot)
        ensures
            final(self)@ == after_snapshot(old(self)@, snapshot@),
            final(self)@.wf(),
    {
        let ghost v = snapshot@;
        let selected_is_available = match &self.selected_player {
            Some(selected) => find_player(snapshot.players.as_slice(), selected).is_some(),
            None => false,
        };
        if !selected_is_available {
            self.selected_player = match preferred_player(snapshot.players.as_slice()) {
                Some(player) => Some(player.id.clone()),
                None => None,
            };
        }
        self.players = snapshot.players;
        self.refresh_now_playing();
        proof {
            lemma_selection_after(old(self)@.selected_player, v);
        }
    }

    /// Selects the player with this id, when one is listed; otherwise nothing changes.
    pub fn select_player(&mut self, id: String)
        ensures
            final(self)@ == after_select(old(self)@, id@),
            old(self)@.wf() ==> final(self)@.wf(),
    {
        if find_player(self.players.as_slice(), &id).is_some() {
            self.selected_player = Some(id);
            self.refresh_now_playing();
        }
    }

    /// Shows another page in the popup.
    pub fn set_popup_page(&mut self, page: PopupPage)
        ensures
            final(self)@ == (AppModelView { popup_page: page, ..old(self)@ }),
    {
        self.popup_page = page;
    }

    /// Turns album colours on or off.
    pub fn set_album_color_enabled(&mut self, enabled: bool)
        ensures
            final(self)@ == (AppModelView {
                settings: AppSettings { album_color_enabled: enabled, ..old(self)@.settings },
                ..old(self)@
            }),
    {
        self.settings.album_color_enabled = enabled;
    }

    /// Shows or hides the panel's "previous" control.
    pub fn set_previous_control_enabled(&mut self, enabled: bool)
        ensures
            final(self)@ == (AppModelView {
                settings: AppSettings { previous_control_enabled: enabled, ..old(self)@.settings },
                ..old(self)@
            }),
    {
        self.settings.previous_control_enabled = enabled;
    }

    /// Shows or hides the panel's play/pause control.
    pub fn set_play_control_enabled(&mut self, enabled: bool)
        ensures
            final(self)@ == (AppModelView {
                settings: AppSettings { play_control_enabled: enabled, ..old(self)@.settings },
                ..old(self)@
            }),
    {
        self.settings.play_control_enabled = enabled;
    }

    /// Shows or hides the panel's "next" control.
    pub fn set_next_control_enabled(&mut self, enabled: bool)
        ensures
            final(self)@ == (AppModelView {
                settings: AppSettings { next_control_enabled: enabled, ..old(self)@.settings },
                ..old(self)@
            }),
    {
        self.settings.next_control_enabled = enabled;
    }

    /// Whether there is a track to show.
    pub fn has_active_media(&self) -> (r: bool)
        ensures
            r == self@.now_playing.has_usable_metadata,
    {
        self.now_playing.has_usable_metadata
    }

    /// The album art whose colour the panel button takes: the shown track's art while
    /// album colours are enabled, else none.
    pub fn album_color_source(&self) -> (r: Option<Vec<u8>>)
        ensures
            path_view(r) == (if self@.settings.album_color_enabled {
                self@.now_playing.album_art_path
            } else {
                None
            }),
    {
        if self.settings.album_color_enabled {
            copy_path(&self.now_playing.album_art_path)
        } else {
            None
        }
    }

    /// Shows the selected player's track, or the placeholder when there is none.
    fn refresh_now_playing(&mut self)
        ensures
            final(self)@ == (AppModelView {
                now_playing: shown_now_playing(
                    old(self)@.players,
                    old(self)@.selected_player,
                    old(self)@.nothing_playing_label,
                ),
                ..old(self)@
            }),
    {
        let found = match &self.selected_player {
            Some(selected) => find_player(self.players.as_slice(), selected),
            None => None,
        };
        match found {
            Some(i) => {
                assert(players_view(self.players@)[i as int] == self.players@[i as int]@);
                self.now_playing = self.players[i].now_playing.duplicate();
            },
            None => {
                self.now_playing = NowPlayingData::nothing_playing(
                    self.nothing_playing_label.clone(),
                );
            },
        }
    }
}

/// A selection survives a new list of players as long as its player is listed.
pub proof fn lemma_selection_kept_while_listed(id: Seq<char>, players: Seq<PlayerView>)
    requires
        position_of(players, id) is Some,
    ensures
        selection_after(Some(id), players) == Some(id),
{
}

/// When the selected player disappears, the preferred player of the new list is
/// selected, or nothing when the list is empty.
pub proof fn lemma_selection_moves_when_gone(id: Seq<char>, players: Seq<PlayerView>)
    requires
        position_of(players, id) is None,
    ensures
        selection_after(Some(id), players) == selection_after(None, players),
        selection_after(Some(id), players) is None <==> players.len() == 0,
{
    lemma_selection_after(Some(id), players);
}

/// A playing player is preferred: the preferred player plays and comes no later than any
/// playing player.
pub proof fn lemma_playing_player_preferred(players: Seq<PlayerView>, i: int)
    requires
        0 <= i < players.len(),
        is_playing(players[i]),
    ensures
        preferred_index(players) matches Some(k) && k <= i && is_playing(players[k]),
{
    lemma_first_index(players, playing_pred());
    assert(playing_pred()(players[i]));
}

/// Without a playing player, one with usable metadata is preferred over one without.
pub proof fn lemma_usable_player_preferred(players: Seq<PlayerView>, i: int)
    requires
        0 <= i < players.len(),
        has_usable_metadata(players[i]),
        forall|j: int| 0 <= j < players.len() ==> !is_playing(#[trigger] players[j]),
    ensures
        preferred_index(players) matches Some(k) && k <= i && has_usable_metadata(players[k]),
{
    lemma_first_index(players, playing_pred());
    lemma_first_index(players, usable_pred());
    assert(usable_pred()(players[i]));
    if let Some(k) = first_index(players, playing_pred()) {
        assert(!is_playing(players[k]));
    }
}

/// Taking in the same list of players twice has the effect of taking it in once.
pub proof fn lemma_apply_snapshot_idempotent(m: AppModelView, players: Seq<PlayerView>)
    ensures
        after_snapshot(after_snapshot(m, players), players) == after_snapshot(m, players),
{
    lemma_selection_after(m.selected_player, players);
    lemma_selection_after(None, players);
}

/// A player that was selected stays selected through a new list that still holds it.
pub proof fn lemma_selected_player_survives_snapshot(
    m: AppModelView,
    id: Seq<char>,
    players: Seq<PlayerView>,
)
    requires
        position_of(m.players, id) is Some,
        position_of(players, id) is Some,
    ensures
        after_snapshot(after_select(m, id), players).selected_player == Some(id),
{
}

/// Every operation keeps the model's invariant: taking in players establishes it, and
/// selecting a player, changing the page or a setting keep it.
pub proof fn lemma_operations_keep_invariant(
    m: AppModelView,
    players: Seq<PlayerView>,
    id: Seq<char>,
    page: PopupPage,
    settings: AppSettings,
)
    requires
        m.wf(),
    ensures
        after_snapshot(m, players).wf(),
        after_select(m, id).wf(),
        (AppModelView { popup_page: page, ..m }).wf(),
        (AppModelView { settings, ..m }).wf(),
{
    lemma_selection_after(m.selected_player, players);
}

/// What is shown is active exactly when the selected player has usable metadata, whatever
/// its playback state: paused and stopped tracks stay visible.
pub proof fn lemma_active_media_is_selected_metadata(m: AppModelView)
    requires
        m.wf(),
    ensures
        m.now_playing.has_usable_metadata <==> (m.selected_player matches Some(id)
            && position_of(m.players, id) matches Some(i) && has_usable_metadata(m.players[i])),
{
}

/// The track that is shown for the player with this id: that of the first listed player
/// with the id.
proof fn lemma_shown_is_first_with_id(players: Seq<PlayerView>, id: Seq<char>, label: Seq<char>, j: int)
    requires
        0 <= j < players.len(),
        players[j].id == id,
        forall|i: int| 0 <= i < j ==> (#[trigger] players[i]).id != id,
    ensures
        position_of(players, id) == Some(j),
        shown_now_playing(players, Some(id), label) == players[j].now_playing,
{
    lemma_first_index(players, has_id(id));
    assert(has_id(id)(players[j]));
    if let Some(p) = position_of(players, id) {
        if p < j {
            assert(players[p].id != id);
        }
    }
}

/// When the selected player is not listed any more (or none was selected, as for a new
/// model) and a listed player is playing, the first playing player becomes selected, and
/// the track shown is that of the first listed player with its id.
pub proof fn lemma_snapshot_selects_first_playing(
    m: AppModelView,
    players: Seq<PlayerView>,
    k: int,
    j: int,
)
    requires
        m.selected_player matches Some(id) ==> forall|i: int|
            0 <= i < players.len() ==> (#[trigger] players[i]).id != id,
        0 <= k < players.len(),
        players[k].now_playing.state == PlaybackState::Playing,
        forall|i: int|
            0 <= i < k ==> (#[trigger] players[i]).now_playing.state != PlaybackState::Playing,
        0 <= j <= k,
        players[j].id == players[k].id,
        forall|i: int| 0 <= i < j ==> (#[trigger] players[i]).id != players[k].id,
    ensures
        after_snapshot(m, players).selected_player == Some(players[k].id),
        after_snapshot(m, players).now_playing == players[j].now_playing,
        selection_after(None, players) == Some(players[k].id),
{
    if let Some(id) = m.selected_player {
        lemma_first_index(players, has_id(id));
        if let Some(p) = position_of(players, id) {
            assert(players[p].id != id);
        }
    }
    lemma_first_index(players, playing_pred());
    assert(playing_pred()(players[k]));
    if let Some(p) = first_index(players, playing_pred()) {
        if p < k {
            assert(!playing_pred()(players[p]));
        }
    }
    lemma_shown_is_first_with_id(players, players[k].id, m.nothing_playing_label, j);
}

/// When the selected player is not listed any more (or none was selected) and no listed
/// player is playing, the first player with usable metadata becomes selected.
pub proof fn lemma_snapshot_selects_first_with_metadata(
    m: AppModelView,
    players: Seq<PlayerView>,
    k: int,
)
    requires
        m.selected_player matches Some(id) ==> forall|i: int|
            0 <= i < players.len() ==> (#[trigger] players[i]).id != id,
        forall|i: int|
            0 <= i < players.len() ==> (#[trigger] players[i]).now_playing.state
                != PlaybackState::Playing,
        0 <= k < players.len(),
        players[k].now_playing.has_usable_metadata,
        forall|i: int| 0 <= i < k ==> !(#[trigger] players[i]).now_playing.has_usable_metadata,
    ensures
        after_snapshot(m, players).selected_player == Some(players[k].id),
        selection_after(None, players) == Some(players[k].id),
{
    if let Some(id) = m.selected_player {
        lemma_first_index(players, has_id(id));
        if let Some(p) = position_of(players, id) {
            assert(players[p].id != id);
        }
    }
    lemma_first_index(players, playing_pred());
    if let Some(p) = first_index(players, playing_pred()) {
        assert(!playing_pred()(players[p]));
    }
    lemma_first_index(players, usable_pred());
    assert(usable_pred()(players[k]));
    if let Some(p) = first_index(players, usable_pred()) {
        if p < k {
            assert(!usable_pred()(players[p]));
        }
    }
}

/// When the selected player is not listed any more (or none was selected) and no listed
/// player is playing or has usable metadata, the first listed player becomes selected.
pub proof fn lemma_snapshot_selects_first_player(m: AppModelView, players: Seq<PlayerView>)
    requires
        m.selected_player matches Some(id) ==> forall|i: int|
            0 <= i < players.len() ==> (#[trigger] players[i]).id != id,
        players.len() > 0,
        forall|i: int|
            0 <= i < players.len() ==> (#[trigger] players[i]).now_playing.state
                != PlaybackState::Playing && !players[i].now_playing.has_usable_metadata,
    ensures
        after_snapshot(m, players).selected_player == Some(players[0].id),
        selection_after(None, players) == Some(players[0].id),
{
    if let Some(id) = m.selected_player {
        lemma_first_index(players, has_id(id));
        if let Some(p) = position_of(players, id) {
            assert(players[p].id != id);
        }
    }
    lemma_first_index(players, playing_pred());
    if let Some(p) = first_index(players, playing_pred()) {
        assert(!playing_pred()(players[p]));
    }
    lemma_first_index(players, usable_pred());
    if let Some(p) = first_index(players, usable_pred()) {
        assert(!usable_pred()(players[p]));
    }
}

/// An empty list leaves nothing selected and shows the placeholder: the label as text and
/// title, no artist, stopped, no art, no usable metadata.
pub proof fn lemma_snapshot_without_players(m: AppModelView, players: Seq<PlayerView>)
    requires
        players.len() == 0,
    ensures
        after_snapshot(m, players).selected_player is None,
        after_snapshot(m, players).now_playing.text == m.nothing_playing_label,
        after_snapshot(m, players).now_playing.title == m.nothing_playing_label,
        after_snapshot(m, players).now_playing.artist.len() == 0,
        after_snapshot(m, players).now_playing.state == PlaybackState::Stopped,
        after_snapshot(m, players).now_playing.album_art_path is None,
        !after_snapshot(m, players).now_playing.has_usable_metadata,
{
    lemma_selection_after(m.selected_player, players);
}

/// A selection that is still listed is kept, and the track shown is that of the first
/// listed player with its id.
pub proof fn lemma_snapshot_keeps_listed_selection(
    m: AppModelView,
    players: Seq<PlayerView>,
    id: Seq<char>,
    j: int,
)
    requires
        m.selected_player == Some(id),
        0 <= j < players.len(),
        players[j].id == id,
        forall|i: int| 0 <= i < j ==> (#[trigger] players[i]).id != id,
    ensures
        after_snapshot(m, players).selected_player == Some(id),
        after_snapshot(m, players).now_playing == players[j].now_playing,
{
    lemma_shown_is_first_with_id(players, id, m.nothing_playing_label, j);
}

/// Two tracks are shown the same way exactly when their texts, titles, artists, states and
/// flags are equal and their art paths are both absent or both present with the same
/// components.
pub proof fn lemma_same_track_fields(a: NowPlayingView, b: NowPlayingView)
    ensures
        same_track(a, b) <==> {
            &&& a.text == b.text
            &&& a.title == b.title
            &&& a.artist == b.artist
            &&& a.state == b.state
            &&& a.has_usable_metadata == b.has_usable_metadata
            &&& match (a.album_art_path, b.album_art_path) {
                (Some(x), Some(y)) => crate::path::path_components(x)
                    == crate::path::path_components(y),
                (None, None) => true,
                _ => false,
            }
        },
{
}

/// Two scans are the same exactly when they list as many players and each player has the
/// same id and name and is shown the same way; so any difference in a shown field of any
/// player makes a scan different, and every scan is the same as itself.
pub proof fn lemma_same_players_fields(a: Seq<PlayerView>, b: Seq<PlayerView>)
    ensures
        same_players(a, b) <==> {
            &&& a.len() == b.len()
            &&& forall|i: int|
                0 <= i < a.len() ==> {
                    &&& (#[trigger] a[i]).id == b[i].id
                    &&& a[i].identity == b[i].identity
                    &&& a[i].now_playing.text == b[i].now_playing.text
                    &&& a[i].now_playing.title == b[i].now_playing.title
                    &&& a[i].now_playing.artist == b[i].now_playing.artist
                    &&& a[i].now_playing.state == b[i].now_playing.state
                    &&& a[i].now_playing.has_usable_metadata == b[i].now_playing.has_usable_metadata
                    &&& same_path_view(a[i].now_playing.album_art_path, b[i].now_playing.album_art_path)
                }
        },
        same_players(a, a),
{
}

} // verus!
