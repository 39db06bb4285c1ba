//! Session state: the playlist and track collections, their cursors, the
//! selected playlist and device, the focused panel, and the key handling
//! that drives them. Network work is asked for through [`Command`] values
//! and its results are handed back to the session.

use crate::ids::{
    checked_track_uri, is_catalog_id, last_segment, playable_track_uri, playlist_fetch_id,
    track_uri,
};
use vstd::arithmetic::div_mod::{
    lemma_add_mod_noop, lemma_mod_add_multiples_vanish, lemma_mod_self_0, lemma_small_mod,
    lemma_sub_mod_noop,
};
use vstd::prelude::*;
use vstd::string::*;

verus! {

/// A playlist as listed by the service.
#[derive(Debug)]
pub struct PlaylistEntry {
    pub name: String,
    pub id: String,
}

/// A track of the selected playlist: its display name and playable reference.
#[derive(Debug)]
pub struct TrackEntry {
    pub name: String,
    pub uri: String,
}

impl View for TrackEntry {
    type V = (Seq<char>, Seq<char>);

    open spec fn view(&self) -> (Seq<char>, Seq<char>) {
        (self.name@, self.uri@)
    }
}

/// A playback device; the service may list one without an id.
#[derive(Debug)]
pub struct DeviceEntry {
    pub id: Option<String>,
    pub name: String,
}

/// An item of a playlist as fetched: a track, with its title, artist names
/// and catalog id if it has one, or anything else (an episode, say).
#[derive(Debug)]
pub enum FetchedItem {
    Track { title: String, artists: Vec<String>, id: Option<String> },
    Other,
}

/// The panel that keyboard navigation acts on.
#[derive(Clone, Copy, Debug, PartialEq, Eq, Structural)]
pub enum Panel {
    Playlists,
    Tracks,
}

#[derive(Clone, Copy, Debug, PartialEq, Eq, Structural)]
pub enum Direction {
    Next,
    Previous,
}

#[derive(Clone, Copy, Debug, PartialEq, Eq, Structural)]
pub enum PlaybackError {
    /// The track reference does not end in a well-formed catalog id.
    InvalidUri,
    /// The service refused to start playback.
    Rejected,
}

/// A request to start playback of one track, on a device or, without one,
/// on whatever target the service picks.
#[derive(Debug)]
pub struct PlayRequest {
    pub uri: String,
    pub device_id: Option<String>,
}

/// A key press or release, reduced to the keys the session knows.
#[derive(Clone, Copy, Debug, PartialEq, Eq, Structural)]
pub enum Key {
    Char(char),
    Tab,
    Up,
    Down,
    Enter,
    Other,
}

/// What the caller has to do after a key was handled.
#[derive(Debug)]
pub enum Command {
    Nothing,
    Quit,
    /// Fetch the items of the playlist with this catalog id, then hand them
    /// to [`Session::finish_track_fetch`].
    FetchTracks(String),
    /// Start playback, then report the outcome to [`Session::record_playback`].
    Play(PlayRequest),
    /// Playback could not even be asked for.
    Failed(PlaybackError),
}

pub struct Session {
    pub playlists: Vec<PlaylistEntry>,
    pub tracks: Vec<TrackEntry>,
    pub playlist_cursor: Option<usize>,
    pub track_cursor: Option<usize>,
    pub selected_playlist_id: Option<String>,
    pub devices: Vec<DeviceEntry>,
    pub selected_device_id: Option<String>,
    pub focus: Panel,
    pub running: bool,
    pub last_error: Option<PlaybackError>,
}

/// A cursor points into its collection, and is none exactly when the
/// collection is empty.
pub open spec fn cursor_ok(c: Option<usize>, n: nat) -> bool {
    match c {
        Some(i) => (i as nat) < n,
        None => n == 0,
    }
}

/// The cursor of a collection of `n` items that was just replaced.
pub open spec fn reset_cursor(n: nat) -> Option<usize> {
    if n == 0 {
        None
    } else {
        Some(0)
    }
}

/// One step of a cursor over `n` items, wrapping at both ends.
pub open spec fn step(c: Option<usize>, n: nat, d: Direction) -> Option<usize> {
    match c {
        None => None,
        Some(i) => match d {
            Direction::Next => if i + 1 >= n {
                Some(0)
            } else {
                Some((i + 1) as usize)
            },
            Direction::Previous => if i == 0 {
                Some((n - 1) as usize)
            } else {
                Some((i - 1) as usize)
            },
        },
    }
}

pub open spec fn other_panel(p: Panel) -> Panel {
    match p {
        Panel::Playlists => Panel::Tracks,
        Panel::Tracks => Panel::Playlists,
    }
}

pub open spec fn first_playlist_id(v: Seq<PlaylistEntry>) -> Option<String> {
    if v.len() == 0 {
        None
    } else {
        Some(v[0].id)
    }
}

pub open spec fn first_device_id(v: Seq<DeviceEntry>) -> Option<String> {
    if v.len() == 0 {
        None
    } else {
        v[0].id
    }
}

/// Names joined with `", "` between them.
pub open spec fn join(names: Seq<Seq<char>>) -> Seq<char>
    decreases names.len(),
{
    if names.len() == 0 {
        Seq::empty()
    } else if names.len() == 1 {
        names[0]
    } else {
        join(names.drop_last()) + seq![',', ' '] + names.last()
    }
}

/// `title - artist1, artist2, ...`
pub open spec fn display_name(title: Seq<char>, artists: Seq<Seq<char>>) -> Seq<char> {
    title + seq![' ', '-', ' '] + join(artists)
}

pub open spec fn names_of(v: Seq<String>) -> Seq<Seq<char>> {
    v.map_values(|s: String| s@)
}

/// The track entry an item contributes: tracks with a well-formed id do,
/// anything else does not.
pub open spec fn item_entry(item: FetchedItem) -> Seq<(Seq<char>, Seq<char>)> {
    match item {
        FetchedItem::Track { title, artists, id } => match id {
            Some(id) => if is_catalog_id(id@) {
                seq![(display_name(title@, names_of(artists@)), track_uri(id@))]
            } else {
                Seq::empty()
            },
            None => Seq::empty(),
        },
        FetchedItem::Other => Seq::empty(),
    }
}

/// The track entries made of fetched items, in their order.
pub open spec fn track_views(items: Seq<FetchedItem>) -> Seq<(Seq<char>, Seq<char>)>
    decreases items.len(),
{
    if items.len() == 0 {
        Seq::empty()
    } else {
        track_views(items.drop_last()) + item_entry(items.last())
    }
}

pub open spec fn views_of(v: Seq<TrackEntry>) -> Seq<(Seq<char>, Seq<char>)> {
    v.map_values(|t: TrackEntry| t@)
}

impl Session {
    pub open spec fn wf(&self) -> bool {
        &&& cursor_ok(self.playlist_cursor, self.playlists@.len())
        &&& cursor_ok(self.track_cursor, self.tracks@.len())
    }

    /// The two sessions agree on everything but the tracks and their cursor.
    pub open spec fn agrees_outside_tracks(&self, o: Session) -> bool {
        &&& self.playlists == o.playlists
        &&& self.playlist_cursor == o.playlist_cursor
        &&& self.selected_playlist_id == o.selected_playlist_id
        &&& self.devices == o.devices
        &&& self.selected_device_id == o.selected_device_id
        &&& self.focus == o.focus
        &&& self.running == o.running
        &&& self.last_error == o.last_error
    }

    /// The cursor of `panel`.
    pub open spec fn cursor(&self, panel: Panel) -> Option<usize> {
        match panel {
            Panel::Playlists => self.playlist_cursor,
            Panel::Tracks => self.track_cursor,
        }
    }

    /// The number of items in the collection of `panel`.
    pub open spec fn size(&self, panel: Panel) -> nat {
        match panel {
            Panel::Playlists => self.playlists@.len(),
            Panel::Tracks => self.tracks@.len(),
        }
    }

    /// `self` with the cursor of `panel` set to `c`.
    pub open spec fn with_cursor(self, panel: Panel, c: Option<usize>) -> Session {
        match panel {
            Panel::Playlists => Session { playlist_cursor: c, ..self },
            Panel::Tracks => Session { track_cursor: c, ..self },
        }
    }

    /// What starting a track fetch does: without a selected playlist,
    /// nothing. Otherwise the tracks are cleared, and the catalog id of the
    /// selected playlist is what to fetch, if it is well formed.
    pub open spec fn fetch_begun(self, new: Session, r: Option<String>) -> bool {
        match self.selected_playlist_id {
            None => new == self && r is None,
            Some(id) => {
                &&& new.agrees_outside_tracks(self)
                &&& new.tracks@.len() == 0
                &&& new.track_cursor is None
                &&& r.is_some() == is_catalog_id(last_segment(id@))
                &&& (r matches Some(v) ==> v@ == last_segment(id@))
            },
        }
    }

    /// What selecting the playlist `id` does: it becomes the selected one,
    /// and a track fetch begins.
    pub open spec fn playlist_selected(self, new: Session, id: String, r: Option<String>) -> bool {
        Session { selected_playlist_id: Some(id), ..self }.fetch_begun(new, r)
    }

    /// What handing fetched items to the session does: the tracks are
    /// replaced by those the items make, and their cursor is reset.
    pub open spec fn fetch_finished(self, new: Session, items: Seq<FetchedItem>) -> bool {
        &&& new.agrees_outside_tracks(self)
        &&& views_of(new.tracks@) == track_views(items)
        &&& new.track_cursor == reset_cursor(new.tracks@.len())
    }

    /// What a play request for the track reference `uri` is.
    pub open spec fn play_outcome(self, uri: Seq<char>, r: Result<PlayRequest, PlaybackError>) -> bool {
        &&& r.is_ok() == is_catalog_id(last_segment(uri))
        &&& (r matches Ok(req) ==> req.uri@ == track_uri(last_segment(uri)) && req.device_id
            == self.selected_device_id)
        &&& (r matches Err(e) ==> e == PlaybackError::InvalidUri)
    }

    /// What handling a key event does.
    pub open spec fn key_handled(self, new: Session, key: Key, pressed: bool, r: Command) -> bool {
        if !pressed {
            new == self && r is Nothing
        } else {
            match key {
                Key::Char(c) => if c == 'q' {
                    new == Session { running: false, ..self } && r is Quit
                } else {
                    new == self && r is Nothing
                },
                Key::Tab => new == Session { focus: other_panel(self.focus), ..self } && r is Nothing,
                Key::Up => new == self.with_cursor(
                    self.focus,
                    step(self.cursor(self.focus), self.size(self.focus), Direction::Previous),
                ) && r is Nothing,
                Key::Down => new == self.with_cursor(
                    self.focus,
                    step(self.cursor(self.focus), self.size(self.focus), Direction::Next),
                ) && r is Nothing,
                Key::Enter => match self.cursor(self.focus) {
                    None => new == self && r is Nothing,
                    Some(i) => match self.focus {
                        Panel::Playlists => {
                            let id = self.playlists@[i as int].id;
                            if is_catalog_id(last_segment(id@)) {
                                &&& (r matches Command::FetchTracks(w) && self.playlist_selected(
                                    new,
                                    id,
                                    Some(w),
                                ))
                            } else {
                                &&& r is Nothing
                                &&& self.playlist_selected(new, id, None)
                            }
                        },
                        Panel::Tracks => {
                            let uri = self.tracks@[i as int].uri@;
                            if is_catalog_id(last_segment(uri)) {
                                &&& new == self
                                &&& (r matches Command::Play(q) && self.play_outcome(uri, Ok(q)))
                            } else {
                                &&& new == Session {
                                    last_error: Some(PlaybackError::InvalidUri),
                                    ..self
                                }
                                &&& r == Command::Failed(PlaybackError::InvalidUri)
                            }
                        },
                    },
                },
                Key::Other => new == self && r is Nothing,
            }
        }
    }
}


/// One step of a cursor over `n` items, wrapping at both ends.
pub fn step_cursor(c: Option<usize>, n: usize, d: Direction) -> (r: Option<usize>)
    requires
        cursor_ok(c, n as nat),
    ensures
        r == step(c, n as nat, d),
        cursor_ok(r, n as nat),
{
    match c {
        None => None,
        Some(i) => match d {
            Direction::Next => if i + 1 >= n {
                Some(0)
            } else {
                Some(i + 1)
            },
            Direction::Previous => if i == 0 {
                Some(n - 1)
            } else {
                Some(i - 1)
            },
        },
    }
}

fn fresh_cursor(n: usize) -> (r: Option<usize>)
    ensures
        r == reset_cursor(n as nat),
{
    if n == 0 {
        None
    } else {
        Some(0)
    }
}

/// The names joined with `", "` between them.
pub fn join_names(names: &Vec<String>) -> (r: String)
    ensures
        r@ == join(names_of(names@)),
{
    let mut out = String::new();
    let mut k: usize = 0;
    while k < names.len()
        invariant
            k <= names@.len(),
            out@ == join(names_of(names@.subrange(0, k as int))),
        decreases names@.len() - k,
    {
        proof {
            let pre = names@.subrange(0, k as int);
            let next = names@.subrange(0, k + 1);
            assert(next.drop_last() =~= pre);
            assert(names_of(next).drop_last() =~= names_of(pre));
            assert(names_of(next).last() == names@[k as int]@);
            reveal_strlit(", ");
            assert(", "@ =~= seq![',', ' ']);
        }
        if k > 0 {
            out.append(", ");
        }
        out.append(names[k].as_str());
        k = k + 1;
    }
    assert(names@.subrange(0, names@.len() as int) =~= names@);
    out
}

/// `title - artist1, artist2, ...`
pub fn compose_display_name(title: &String, artists: &Vec<String>) -> (r: String)
    ensures
        r@ == display_name(title@, names_of(artists@)),
{
    let mut out = title.clone();
    proof {
        reveal_strlit(" - ");
        assert(" - "@ =~= seq![' ', '-', ' ']);
    }
    out.append(" - ");
    let joined = join_names(artists);
    out.append(joined.as_str());
    out
}

/// The track entries that fetched items make, in their order: one for each
/// track with a well-formed catalog id.
pub fn track_entries(items: &Vec<FetchedItem>) -> (r: Vec<TrackEntry>)
    ensures
        views_of(r@) == track_views(items@),
{
    let mut out: Vec<TrackEntry> = Vec::new();
    let mut k: usize = 0;
    while k < items.len()
        invariant
            k <= items@.len(),
            views_of(out@) == track_views(items@.subrange(0, k as int)),
        decreases items@.len() - k,
    {
        let ghost before = out@;
        proof {
            assert(items@.subrange(0, k + 1).drop_last() =~= items@.subrange(0, k as int));
        }
        match &items[k] {
            FetchedItem::Track { title, artists, id } => match id {
                Some(id) => match checked_track_uri(id.as_str()) {
                    Some(uri) => {
                        let name = compose_display_name(title, artists);
                        out.push(TrackEntry { name, uri });
                        assert(views_of(out@) =~= views_of(before) + item_entry(items@[k as int]));
                    },
                    None => {},
                },
                None => {},
            },
            FetchedItem::Other => {},
        }
        assert(views_of(out@) =~= track_views(items@.subrange(0, k + 1)));
        k = k + 1;
    }
    assert(items@.subrange(0, items@.len() as int) =~= items@);
    out
}

impl Session {
    /// A session over freshly listed playlists and devices: the first
    /// playlist and the first device are selected, no tracks are loaded yet,
    /// and the playlists panel has the focus.
    pub fn new(playlists: Vec<PlaylistEntry>, devices: Vec<DeviceEntry>) -> (r: Session)
        ensures
            r.wf(),
            r.playlists == playlists,
            r.playlist_cursor == reset_cursor(playlists@.len()),
            r.selected_playlist_id == first_playlist_id(playlists@),
            r.tracks@.len() == 0,
            r.track_cursor is None,
            r.devices == devices,
            r.selected_device_id == first_device_id(devices@),
            r.focus == Panel::Playlists,
            r.running,
            r.last_error is None,
    {
        let mut s = Session {
            playlists: Vec::new(),
            tracks: Vec::new(),
            playlist_cursor: None,
            track_cursor: None,
            selected_playlist_id: None,
            devices: Vec::new(),
            selected_device_id: None,
            focus: Panel::Playlists,
            running: true,
            last_error: None,
        };
        s.set_playlists(playlists);
        s.set_devices(devices);
        s
    }

    /// Replaces the playlists wholesale; their cursor is reset and the first
    /// one, if any, becomes the selected playlist.
    pub fn set_playlists(&mut self, playlists: Vec<PlaylistEntry>)
        requires
            old(self).wf(),
        ensures
            final(self).wf(),
            *final(self) == (Session {
                playlists: playlists,
                playlist_cursor: reset_cursor(playlists@.len()),
                selected_playlist_id: first_playlist_id(playlists@),
                ..*old(self)
            }),
    {
        self.playlist_cursor = fresh_cursor(playlists.len());
        self.selected_playlist_id = if playlists.len() > 0 {
            Some(playlists[0].id.clone())
        } else {
            None
        };
        self.playlists = playlists;
    }

    /// Replaces the devices wholesale; the first one's id, if any, becomes
    /// the target of playback.
    pub fn set_devices(&mut self, devices: Vec<DeviceEntry>)
        requires
            old(self).wf(),
        ensures
            final(self).wf(),
            *final(self) == (Session {
                devices: devices,
                selected_device_id: first_device_id(devices@),
                ..*old(self)
            }),
    {
        self.selected_device_id = if devices.len() > 0 {
            match &devices[0].id {
                Some(id) => Some(id.clone()),
                None => None,
            }
        } else {
            None
        };
        self.devices = devices;
    }

    /// Moves the cursor of `panel` one step, wrapping at both ends; on an
    /// empty collection nothing moves.
    pub fn move_cursor(&mut self, panel: Panel, d: Direction)
        requires
            old(self).wf(),
        ensures
            final(self).wf(),
            *final(self) == old(self).with_cursor(
                panel,
                step(old(self).cursor(panel), old(self).size(panel), d),
            ),
    {
        match panel {
            Panel::Playlists => {
                self.playlist_cursor = step_cursor(self.playlist_cursor, self.playlists.len(), d);
            },
            Panel::Tracks => {
                self.track_cursor = step_cursor(self.track_cursor, self.tracks.len(), d);
            },
        }
    }

    pub fn next_playlist(&mut self)
        requires
            old(self).wf(),
        ensures
            final(self).wf(),
            *final(self) == old(self).with_cursor(
                Panel::Playlists,
                step(old(self).playlist_cursor, old(self).playlists@.len(), Direction::Next),
            ),
    {
        self.move_cursor(Panel::Playlists, Direction::Next);
    }

    pub fn previous_playlist(&mut self)
        requires
            old(self).wf(),
        ensures
            final(self).wf(),
            *final(self) == old(self).with_cursor(
                Panel::Playlists,
                step(old(self).playlist_cursor, old(self).playlists@.len(), Direction::Previous),
            ),
    {
        self.move_cursor(Panel::Playlists, Direction::Previous);
    }

    pub fn next_track(&mut self)
        requires
            old(self).wf(),
        ensures
            final(self).wf(),
            *final(self) == old(self).with_cursor(
                Panel::Tracks,
                step(old(self).track_cursor, old(self).tracks@.len(), Direction::Next),
            ),
    {
        self.move_cursor(Panel::Tracks, Direction::Next);
    }

    pub fn previous_track(&mut self)
        requires
            old(self).wf(),
        ensures
            final(self).wf(),
            *final(self) == old(self).with_cursor(
                Panel::Tracks,
                step(old(self).track_cursor, old(self).tracks@.len(), Direction::Previous),
            ),
    {
        self.move_cursor(Panel::Tracks, Direction::Previous);
    }

    /// Switches the focus to the other panel.
    pub fn toggle_focus(&mut self)
        ensures
            *final(self) == (Session { focus: other_panel(old(self).focus), ..*old(self) }),
    {
        self.focus = match self.focus {
            Panel::Playlists => Panel::Tracks,
            Panel::Tracks => Panel::Playlists,
        };
    }

    /// Starts refetching the tracks of the selected playlist: clears them and
    /// returns the catalog id to fetch. A malformed id leaves the tracks
    /// cleared and nothing to fetch.
    pub fn begin_track_fetch(&mut self) -> (r: Option<String>)
        requires
            old(self).wf(),
        ensures
            final(self).wf(),
            old(self).fetch_begun(*final(self), r),
    {
        match &self.selected_playlist_id {
            None => None,
            Some(stored) => {
                let fetch = playlist_fetch_id(stored.as_str());
                self.tracks = Vec::new();
                self.track_cursor = None;
                fetch
            },
        }
    }

    /// Selects the playlist `id` and starts refetching its tracks.
    pub fn select_playlist(&mut self, id: String) -> (r: Option<String>)
        requires
            old(self).wf(),
        ensures
            final(self).wf(),
            old(self).playlist_selected(*final(self), id, r),
    {
        self.selected_playlist_id = Some(id);
        self.begin_track_fetch()
    }

    /// Replaces the tracks wholesale by those the fetched items make, and
    /// resets their cursor.
    pub fn finish_track_fetch(&mut self, items: &Vec<FetchedItem>)
        requires
            old(self).wf(),
        ensures
            final(self).wf(),
            old(self).fetch_finished(*final(self), items@),
    {
        let entries = track_entries(items);
        self.track_cursor = fresh_cursor(entries.len());
        self.tracks = entries;
    }

    /// The request that plays the track reference `uri` on the selected
    /// device: its catalog id, written as a canonical track reference.
    pub fn play_request(&self, uri: &str) -> (r: Result<PlayRequest, PlaybackError>)
        ensures
            self.play_outcome(uri@, r),
    {
        match playable_track_uri(uri) {
            Some(track) => {
                let device_id = match &self.selected_device_id {
                    Some(d) => Some(d.clone()),
                    None => None,
                };
                Ok(PlayRequest { uri: track, device_id })
            },
            None => Err(PlaybackError::InvalidUri),
        }
    }

    /// Records how a playback request went; the selection stays as it was.
    pub fn record_playback(&mut self, accepted: bool)
        ensures
            *final(self) == (Session {
                last_error: if accepted {
                    None
                } else {
                    Some(PlaybackError::Rejected)
                },
                ..*old(self)
            }),
    {
        self.last_error = if accepted {
            None
        } else {
            Some(PlaybackError::Rejected)
        };
    }

    /// Handles one key event against the focused panel. Releases are ignored.
    pub fn handle_key(&mut self, key: Key, pressed: bool) -> (r: Command)
        requires
            old(self).wf(),
        ensures
            final(self).wf(),
            old(self).key_handled(*final(self), key, pressed, r),
    {
        if !pressed {
            return Command::Nothing;
        }
        match key {
            Key::Char(c) => {
                if c == 'q' {
                    self.running = false;
                    Command::Quit
                } else {
                    Command::Nothing
                }
            },
            Key::Tab => {
                self.toggle_focus();
                Command::Nothing
            },
            Key::Up => {
                self.move_cursor(self.focus, Direction::Previous);
                Command::Nothing
            },
            Key::Down => {
                self.move_cursor(self.focus, Direction::Next);
                Command::Nothing
            },
            Key::Enter => match self.focus {
                Panel::Playlists => match self.playlist_cursor {
                    None => Command::Nothing,
                    Some(i) => {
                        let id = self.playlists[i].id.clone();
                        match self.select_playlist(id) {
                            Some(v) => Command::FetchTracks(v),
                            None => Command::Nothing,
                        }
                    },
                },
                Panel::Tracks => match self.track_cursor {
                    None => Command::Nothing,
                    Some(i) => match self.play_request(self.tracks[i].uri.as_str()) {
                        Ok(req) => Command::Play(req),
                        Err(e) => {
                            self.last_error = Some(e);
                            Command::Failed(e)
                        },
                    },
                },
            },
            Key::Other => Command::Nothing,
        }
    }
}

/// `k` steps of a cursor over `n` items in direction `d`.
pub open spec fn steps(c: Option<usize>, n: nat, d: Direction, k: nat) -> Option<usize>
    decreases k,
{
    if k == 0 {
        c
    } else {
        step(steps(c, n, d, (k - 1) as nat), n, d)
    }
}

/// On a non-empty collection, `next` from the last index goes to 0, and
/// `previous` from 0 goes to the last index.
pub proof fn lemma_cursor_wraps(n: nat)
    requires
        0 < n <= usize::MAX,
    ensures
        step(Some((n - 1) as usize), n, Direction::Next) == Some(0usize),
        step(Some(0usize), n, Direction::Previous) == Some((n - 1) as usize),
{
}

/// On a non-empty collection, `k` repeated `next` steps from index `i` land
/// on `(i + k) % n`: after the last index the cursor starts over at 0, and
/// `n` steps bring it back to where it was.
pub proof fn lemma_next_steps(i: usize, n: nat, k: nat)
    requires
        i < n <= usize::MAX,
    ensures
        steps(Some(i), n, Direction::Next, k) == Some(((i + k) % (n as int)) as usize),
    decreases k,
{
    if k == 0 {
        lemma_small_mod(i as nat, n);
    } else {
        lemma_next_steps(i, n, (k - 1) as nat);
        let j = (i + k - 1) % (n as int);
        lemma_add_mod_noop(i + k - 1, 1, n as int);
        if n == 1 {
            assert((i + k) % 1 == 0);
            assert(j % 1 == 0);
        } else {
            lemma_small_mod(1, n);
            if j + 1 < n {
                lemma_small_mod((j + 1) as nat, n);
            } else {
                lemma_mod_self_0(n as int);
            }
        }
    }
}

/// On a non-empty collection, `k` repeated `previous` steps from index `i`
/// land on `(i - k) mod n`: before index 0 the cursor goes on from the last
/// index.
pub proof fn lemma_previous_steps(i: usize, n: nat, k: nat)
    requires
        i < n <= usize::MAX,
    ensures
        steps(Some(i), n, Direction::Previous, k) == Some(((i - k) % (n as int)) as usize),
    decreases k,
{
    if k == 0 {
        lemma_small_mod(i as nat, n);
    } else {
        lemma_previous_steps(i, n, (k - 1) as nat);
        let x = i - (k - 1);
        let j = x % (n as int);
        lemma_sub_mod_noop(x, 1, n as int);
        if n == 1 {
            assert((x - 1) % 1 == 0);
            assert(j % 1 == 0);
        } else {
            lemma_small_mod(1, n);
            if j > 0 {
                lemma_small_mod((j - 1) as nat, n);
            } else {
                lemma_mod_add_multiples_vanish(-1, n as int);
                lemma_small_mod((n - 1) as nat, n);
            }
        }
    }
}

/// On an empty collection the cursor stays none, whichever way it moves.
pub proof fn lemma_empty_cursor_stays_none(c: Option<usize>, d: Direction)
    requires
        cursor_ok(c, 0),
    ensures
        step(c, 0, d) is None,
{
}

/// Switching the focus twice gives back the panel focused before.
pub proof fn lemma_toggle_twice(p: Panel)
    ensures
        other_panel(other_panel(p)) == p,
{
}

/// Up and Down move the cursor of the focused panel only: with the tracks
/// focused, the playlist cursor and the selected playlist never change.
pub proof fn lemma_navigation_moves_focused_cursor_only(
    s: Session,
    new: Session,
    key: Key,
    r: Command,
)
    requires
        key == Key::Up || key == Key::Down,
        s.key_handled(new, key, true, r),
    ensures
        new.focus == s.focus,
        s.focus == Panel::Tracks ==> new.playlist_cursor == s.playlist_cursor
            && new.selected_playlist_id == s.selected_playlist_id && new.playlists == s.playlists,
        s.focus == Panel::Playlists ==> new.track_cursor == s.track_cursor && new.tracks
            == s.tracks,
{
}

/// Selecting a playlist and handing the fetched items back leaves exactly
/// the tracks those items make, with a reset cursor, whatever tracks were
/// loaded before; the rest of the session keeps its state, bar the selected
/// playlist, which is the one chosen.
pub proof fn lemma_select_replaces_tracks(
    s0: Session,
    s1: Session,
    s2: Session,
    id: String,
    f: Option<String>,
    items: Seq<FetchedItem>,
)
    requires
        s0.playlist_selected(s1, id, f),
        s1.fetch_finished(s2, items),
    ensures
        views_of(s2.tracks@) == track_views(items),
        s2.track_cursor == reset_cursor(s2.tracks@.len()),
        s2.selected_playlist_id == Some(id),
        s2.agrees_outside_tracks(Session { selected_playlist_id: Some(id), ..s0 }),
{
}

} // verus!
