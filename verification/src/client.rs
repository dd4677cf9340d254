//! The terminal client's state: what it shows, what is selected, and what
//! each key does.
//!
//! The client's loop reads keys and talks to the server; it asks this
//! state what a key means, carries that out, and hands back what came of
//! it.

use vstd::prelude::*;
use vstd::string::StringExecFns;
use crate::api::PlayRequest;
use crate::library::Library;
use crate::playback::{idle_status, PlaybackStatus};
use crate::track::Track;
use crate::urls::{albums_address, albums_url, tracks_address, tracks_url};

verus! {

/// One of the three lists of the browser.
#[derive(Clone, Copy, Debug, PartialEq, Eq, Structural)]
pub enum Panel {
    Artists,
    Albums,
    Tracks,
}

/// A key of the keyboard, as far as the client tells keys apart.
#[derive(Clone, Copy, Debug, PartialEq, Eq, Structural)]
pub enum Key {
    Char(char),
    Tab,
    Right,
    Left,
    Down,
    Up,
    Enter,
    Other,
}

/// What the client's loop has to do after a key.
#[derive(Debug)]
pub enum Action {
    /// Leave the program.
    Quit,
    Nothing,
    /// Fetch the albums of the selected artist from this address.
    FetchAlbums(String),
    /// Fetch the tracks of the selected album from this address.
    FetchTracks(String),
    /// Ask the server to play the selected track.
    Play(PlayRequest),
    Pause,
    Resume,
    Stop,
    /// Ask the server for a volume one step above the present one.
    RaiseVolume,
    /// Ask the server for a volume one step below the present one.
    LowerVolume,
}

/// What an action says.
pub enum ActionView {
    Quit,
    Nothing,
    FetchAlbums(Seq<char>),
    FetchTracks(Seq<char>),
    Play(Seq<char>),
    Pause,
    Resume,
    Stop,
    RaiseVolume,
    LowerVolume,
}

impl View for Action {
    type V = ActionView;

    open spec fn view(&self) -> ActionView {
        match *self {
            Action::Quit => ActionView::Quit,
            Action::Nothing => ActionView::Nothing,
            Action::FetchAlbums(url) => ActionView::FetchAlbums(url@),
            Action::FetchTracks(url) => ActionView::FetchTracks(url@),
            Action::Play(request) => ActionView::Play(request.path@),
            Action::Pause => ActionView::Pause,
            Action::Resume => ActionView::Resume,
            Action::Stop => ActionView::Stop,
            Action::RaiseVolume => ActionView::RaiseVolume,
            Action::LowerVolume => ActionView::LowerVolume,
        }
    }
}

/// How a row of a list is drawn.
#[derive(Clone, Copy, Debug, PartialEq, Eq, Structural)]
pub enum Highlight {
    /// A row that is not selected.
    Plain,
    /// The selected row of the list that has the focus.
    Focused,
    /// The selected row of a list that does not have the focus.
    Selected,
}

/// The state of the terminal client.
#[derive(Debug, Clone)]
pub struct App {
    /// The address of the server, as it stands at the head of every URL.
    pub server: String,
    pub library: Option<Library>,
    pub playback_status: PlaybackStatus,
    pub artists: Vec<String>,
    pub albums: Vec<String>,
    pub tracks: Vec<Track>,
    pub selected_artist: usize,
    pub selected_album: usize,
    pub selected_track: usize,
    pub active_panel: Panel,
    pub loading: bool,
    pub error_message: Option<String>,
}

/// The panel to the right of a panel; the last panel stays.
pub open spec fn panel_after(panel: Panel) -> Panel {
    match panel {
        Panel::Artists => Panel::Albums,
        Panel::Albums => Panel::Tracks,
        Panel::Tracks => Panel::Tracks,
    }
}

/// The panel to the left of a panel; the first panel stays.
pub open spec fn panel_before(panel: Panel) -> Panel {
    match panel {
        Panel::Artists => Panel::Artists,
        Panel::Albums => Panel::Artists,
        Panel::Tracks => Panel::Albums,
    }
}

/// The row below row `selected` in a list of `len` rows; below the last
/// row comes the first. An empty list keeps its selection.
pub open spec fn row_below(selected: usize, len: usize) -> int {
    if len == 0 {
        selected as int
    } else {
        (selected + 1) % (len as int)
    }
}

/// The row above row `selected` in a list of `len` rows; the first row
/// stays. An empty list keeps its selection.
pub open spec fn row_above(selected: usize, len: usize) -> int {
    if len == 0 || selected == 0 {
        selected as int
    } else {
        selected - 1
    }
}

/// What fetching the albums of the selected artist takes: nothing, if no
/// artist is selected.
pub open spec fn albums_fetch(app: App) -> ActionView {
    if app.selected_artist >= app.artists.len() {
        ActionView::Nothing
    } else {
        ActionView::FetchAlbums(albums_address(app.server@, app.artists[app.selected_artist as int]@))
    }
}

/// What fetching the tracks of the selected album takes: nothing, if no
/// artist or no album is selected.
pub open spec fn tracks_fetch(app: App) -> ActionView {
    if app.selected_artist >= app.artists.len() || app.selected_album >= app.albums.len() {
        ActionView::Nothing
    } else {
        ActionView::FetchTracks(
            tracks_address(
                app.server@,
                app.artists[app.selected_artist as int]@,
                app.albums[app.selected_album as int]@,
            ),
        )
    }
}

/// What the enter key asks for: the albums of the selected artist, the
/// tracks of the selected album, or the selected track to be played.
pub open spec fn chosen(app: App) -> ActionView {
    match app.active_panel {
        Panel::Artists => albums_fetch(app),
        Panel::Albums => tracks_fetch(app),
        Panel::Tracks => if app.selected_track < app.tracks.len() {
            ActionView::Play(app.tracks[app.selected_track as int].path@)
        } else {
            ActionView::Nothing
        },
    }
}

/// What a key asks the loop to do.
pub open spec fn action_of(app: App, key: Key) -> ActionView {
    match key {
        Key::Char(c) => if c == 'q' || c == 'Q' {
            ActionView::Quit
        } else if c == ' ' {
            if app.playback_status.playing {
                ActionView::Pause
            } else {
                ActionView::Resume
            }
        } else if c == 's' || c == 'S' {
            ActionView::Stop
        } else if c == '+' || c == '=' {
            ActionView::RaiseVolume
        } else if c == '-' {
            ActionView::LowerVolume
        } else {
            ActionView::Nothing
        },
        Key::Enter => chosen(app),
        _ => ActionView::Nothing,
    }
}

/// The state after a key: the arrow keys and the tabulator move the
/// focus and the selection, every other key leaves the state as it is.
pub open spec fn moved(app: App, key: Key) -> App {
    match key {
        Key::Tab | Key::Right => App { active_panel: panel_after(app.active_panel), ..app },
        Key::Left => App { active_panel: panel_before(app.active_panel), ..app },
        Key::Down => match app.active_panel {
            Panel::Artists => App {
                selected_artist: row_below(app.selected_artist, app.artists.len()) as usize,
                ..app
            },
            Panel::Albums => App {
                selected_album: row_below(app.selected_album, app.albums.len()) as usize,
                ..app
            },
            Panel::Tracks => App {
                selected_track: row_below(app.selected_track, app.tracks.len()) as usize,
                ..app
            },
        },
        Key::Up => match app.active_panel {
            Panel::Artists => App {
                selected_artist: row_above(app.selected_artist, app.artists.len()) as usize,
                ..app
            },
            Panel::Albums => App {
                selected_album: row_above(app.selected_album, app.albums.len()) as usize,
                ..app
            },
            Panel::Tracks => App {
                selected_track: row_above(app.selected_track, app.tracks.len()) as usize,
                ..app
            },
        },
        _ => app,
    }
}

/// The row below row `selected` in a list of `len` rows.
fn below(selected: usize, len: usize) -> (row: usize)
    ensures
        row == row_below(selected, len),
{
    if len == 0 {
        selected
    } else {
        let here: usize = selected % len;
        proof {
            vstd::arithmetic::div_mod::lemma_add_mod_noop(selected as int, 1, len as int);
            if len == 1 {
                vstd::arithmetic::div_mod::lemma_mod_self_0(1);
                vstd::arithmetic::div_mod::lemma_small_mod(0, 1);
            } else {
                vstd::arithmetic::div_mod::lemma_small_mod(1, len as nat);
            }
            if here + 1 < len {
                vstd::arithmetic::div_mod::lemma_small_mod((here + 1) as nat, len as nat);
            } else {
                vstd::arithmetic::div_mod::lemma_mod_self_0(len as int);
            }
        }
        if here + 1 == len {
            0
        } else {
            here + 1
        }
    }
}

/// The row above row `selected` in a list of `len` rows.
fn above(selected: usize, len: usize) -> (row: usize)
    ensures
        row == row_above(selected, len),
{
    if len == 0 || selected == 0 {
        selected
    } else {
        selected - 1
    }
}

impl App {
    /// The state of a client that has just started: nothing loaded yet,
    /// the first row of each list selected, the focus on the artists.
    pub fn new(server: String) -> (app: App)
        ensures
            app.server == server,
            app.library is None,
            app.playback_status@ == idle_status(),
            app.artists@.len() == 0,
            app.albums@.len() == 0,
            app.tracks@.len() == 0,
            app.selected_artist == 0,
            app.selected_album == 0,
            app.selected_track == 0,
            app.active_panel == Panel::Artists,
            app.loading,
            app.error_message is None,
    {
        App {
            server,
            library: None,
            playback_status: PlaybackStatus::default(),
            artists: Vec::new(),
            albums: Vec::new(),
            tracks: Vec::new(),
            selected_artist: 0,
            selected_album: 0,
            selected_track: 0,
            active_panel: Panel::Artists,
            loading: true,
            error_message: None,
        }
    }

    /// Moves the focus one panel to the right.
    pub fn next_panel(&mut self)
        ensures
            *final(self) == moved(*old(self), Key::Right),
    {
        self.active_panel = match self.active_panel {
            Panel::Artists => Panel::Albums,
            Panel::Albums => Panel::Tracks,
            Panel::Tracks => Panel::Tracks,
        };
    }

    /// Moves the focus one panel to the left.
    pub fn prev_panel(&mut self)
        ensures
            *final(self) == moved(*old(self), Key::Left),
    {
        self.active_panel = match self.active_panel {
            Panel::Artists => Panel::Artists,
            Panel::Albums => Panel::Artists,
            Panel::Tracks => Panel::Albums,
        };
    }

    /// Moves the selection of the focused list one row down; below the
    /// last row comes the first.
    pub fn next_item(&mut self)
        ensures
            *final(self) == moved(*old(self), Key::Down),
    {
        match self.active_panel {
            Panel::Artists => {
                self.selected_artist = below(self.selected_artist, self.artists.len());
            },
            Panel::Albums => {
                self.selected_album = below(self.selected_album, self.albums.len());
            },
            Panel::Tracks => {
                self.selected_track = below(self.selected_track, self.tracks.len());
            },
        }
    }

    /// Moves the selection of the focused list one row up; the first row
    /// stays.
    pub fn prev_item(&mut self)
        ensures
            *final(self) == moved(*old(self), Key::Up),
    {
        match self.active_panel {
            Panel::Artists => {
                self.selected_artist = above(self.selected_artist, self.artists.len());
            },
            Panel::Albums => {
                self.selected_album = above(self.selected_album, self.albums.len());
            },
            Panel::Tracks => {
                self.selected_track = above(self.selected_track, self.tracks.len());
            },
        }
    }

    /// What fetching the albums of the selected artist takes.
    pub fn fetch_albums(&self) -> (action: Action)
        ensures
            action@ == albums_fetch(*self),
    {
        if self.selected_artist >= self.artists.len() {
            Action::Nothing
        } else {
            Action::FetchAlbums(
                albums_url(self.server.as_str(), self.artists[self.selected_artist].as_str()),
            )
        }
    }

    /// What fetching the tracks of the selected album takes.
    pub fn fetch_tracks(&self) -> (action: Action)
        ensures
            action@ == tracks_fetch(*self),
    {
        if self.selected_artist >= self.artists.len() || self.selected_album >= self.albums.len() {
            Action::Nothing
        } else {
            Action::FetchTracks(
                tracks_url(
                    self.server.as_str(),
                    self.artists[self.selected_artist].as_str(),
                    self.albums[self.selected_album].as_str(),
                ),
            )
        }
    }

    /// Takes a key event. Only a key that went down counts; it moves the
    /// focus or the selection, or asks the loop for an action.
    pub fn on_key(&mut self, key: Key, pressed: bool) -> (action: Action)
        ensures
            *final(self) == if pressed {
                moved(*old(self), key)
            } else {
                *old(self)
            },
            action@ == if pressed {
                action_of(*old(self), key)
            } else {
                ActionView::Nothing
            },
    {
        if !pressed {
            return Action::Nothing;
        }
        match key {
            Key::Char(c) => {
                if c == 'q' || c == 'Q' {
                    Action::Quit
                } else if c == ' ' {
                    if self.playback_status.playing {
                        Action::Pause
                    } else {
                        Action::Resume
                    }
                } else if c == 's' || c == 'S' {
                    Action::Stop
                } else if c == '+' || c == '=' {
                    Action::RaiseVolume
                } else if c == '-' {
                    Action::LowerVolume
                } else {
                    Action::Nothing
                }
            },
            Key::Tab | Key::Right => {
                self.next_panel();
                Action::Nothing
            },
            Key::Left => {
                self.prev_panel();
                Action::Nothing
            },
            Key::Down => {
                self.next_item();
                Action::Nothing
            },
            Key::Up => {
                self.prev_item();
                Action::Nothing
            },
            Key::Enter => match self.active_panel {
                Panel::Artists => self.fetch_albums(),
                Panel::Albums => self.fetch_tracks(),
                Panel::Tracks => {
                    if self.selected_track < self.tracks.len() {
                        Action::Play(
                            PlayRequest { path: self.tracks[self.selected_track].path.clone() },
                        )
                    } else {
                        Action::Nothing
                    }
                },
            },
            Key::Other => Action::Nothing,
        }
    }

    /// Takes the library that the server sent. The list of artists is
    /// fetched next.
    pub fn library_fetched(&mut self, library: Library)
        ensures
            *final(self) == (App { library: Some(library), ..*old(self) }),
    {
        self.library = Some(library);
    }

    /// Takes the list of artists that the server sent, and says what to
    /// fetch next: the albums of the selected artist, if there is any
    /// artist at all.
    pub fn artists_fetched(&mut self, artists: Vec<String>) -> (action: Action)
        ensures
            *final(self) == (App { artists, ..*old(self) }),
            action@ == if artists.len() == 0 {
                ActionView::Nothing
            } else {
                albums_fetch(*final(self))
            },
    {
        self.artists = artists;
        if self.artists.len() == 0 {
            Action::Nothing
        } else {
            self.fetch_albums()
        }
    }

    /// Takes the list of albums that the server sent, and says what to
    /// fetch next: the tracks of the selected album, if there is any
    /// album at all.
    pub fn albums_fetched(&mut self, albums: Vec<String>) -> (action: Action)
        ensures
            *final(self) == (App { albums, ..*old(self) }),
            action@ == if albums.len() == 0 {
                ActionView::Nothing
            } else {
                tracks_fetch(*final(self))
            },
    {
        self.albums = albums;
        if self.albums.len() == 0 {
            Action::Nothing
        } else {
            self.fetch_tracks()
        }
    }

    /// Takes the list of tracks that the server sent.
    pub fn tracks_fetched(&mut self, tracks: Vec<Track>)
        ensures
            *final(self) == (App { tracks, ..*old(self) }),
    {
        self.tracks = tracks;
    }

    /// Takes what came of loading the library at the start: the client
    /// is no longer loading, and a failure is shown.
    pub fn loaded(&mut self, failure: Option<String>)
        ensures
            final(self).loading == false,
            match failure {
                Some(why) => final(self).error_message matches Some(text) && text@
                    == "Failed to load library: "@ + why@,
                None => final(self).error_message == old(self).error_message,
            },
            *final(self) == (App {
                loading: false,
                error_message: final(self).error_message,
                ..*old(self)
            }),
    {
        match failure {
            Some(why) => {
                self.error_message = Some(
                    String::from_str("Failed to load library: ").concat(why.as_str()),
                );
            },
            None => {},
        }
        self.loading = false;
    }

    /// Takes what came of an action that a key asked for: a failure is
    /// shown, a success leaves the screen as it is.
    pub fn acted(&mut self, failure: Option<String>)
        ensures
            match failure {
                Some(why) => final(self).error_message matches Some(text) && text@ == "Error: "@
                    + why@,
                None => final(self).error_message == old(self).error_message,
            },
            *final(self) == (App { error_message: final(self).error_message, ..*old(self) }),
    {
        match failure {
            Some(why) => {
                self.error_message = Some(String::from_str("Error: ").concat(why.as_str()));
            },
            None => {},
        }
    }

    /// Takes what came of asking the server for its status: a snapshot
    /// replaces the one shown and clears the error, a failure is shown.
    pub fn status_fetched(&mut self, answer: Result<PlaybackStatus, String>)
        ensures
            match answer {
                Ok(status) => *final(self) == (App {
                    playback_status: status,
                    error_message: None,
                    ..*old(self)
                }),
                Err(why) => {
                    &&& final(self).error_message matches Some(text) && text@
                        == "Connection error: "@ + why@
                    &&& *final(self) == (App {
                        error_message: final(self).error_message,
                        ..*old(self)
                    })
                },
            },
    {
        match answer {
            Ok(status) => {
                self.playback_status = status;
                self.error_message = None;
            },
            Err(why) => {
                self.error_message = Some(
                    String::from_str("Connection error: ").concat(why.as_str()),
                );
            },
        }
    }

    /// How row `index` of the list in `panel` is drawn.
    pub fn highlight(&self, panel: Panel, index: usize) -> (mark: Highlight)
        ensures
            mark == highlight_of(*self, panel, index),
    {
        let selected: usize = match panel {
            Panel::Artists => self.selected_artist,
            Panel::Albums => self.selected_album,
            Panel::Tracks => self.selected_track,
        };
        if index != selected {
            Highlight::Plain
        } else if self.active_panel == panel {
            Highlight::Focused
        } else {
            Highlight::Selected
        }
    }
}

/// How row `index` of the list in `panel` is drawn: the selected row
/// stands out, more so in the list that has the focus.
pub open spec fn highlight_of(app: App, panel: Panel, index: usize) -> Highlight {
    let selected = match panel {
        Panel::Artists => app.selected_artist,
        Panel::Albums => app.selected_album,
        Panel::Tracks => app.selected_track,
    };
    if index != selected {
        Highlight::Plain
    } else if app.active_panel == panel {
        Highlight::Focused
    } else {
        Highlight::Selected
    }
}

/// The character for a digit.
pub open spec fn digit_char(digit: nat) -> char {
    ((0x30 + digit) as u8) as char
}

/// A number written in decimal digits, without leading zeros.
pub open spec fn decimal(n: nat) -> Seq<char>
    decreases n,
{
    if n < 10 {
        seq![digit_char(n)]
    } else {
        decimal(n / 10).push(digit_char(n % 10))
    }
}

/// A number written in at least two decimal digits.
pub open spec fn two_digits(n: nat) -> Seq<char> {
    if n < 10 {
        seq!['0'] + decimal(n)
    } else {
        decimal(n)
    }
}

/// A position as a clock shows it: the whole minutes and the seconds of
/// the running minute, each in at least two digits, with a colon between.
pub open spec fn clock(position_ms: nat) -> Seq<char> {
    two_digits(position_ms / 1000 / 60) + seq![':'] + two_digits(position_ms / 1000 % 60)
}

/// The text of a digit.
fn digit_text(digit: u64) -> (text: &'static str)
    requires
        digit < 10,
    ensures
        text@ == seq![digit_char(digit as nat)],
{
    proof {
        reveal_strlit("0");
        reveal_strlit("1");
        reveal_strlit("2");
        reveal_strlit("3");
        reveal_strlit("4");
        reveal_strlit("5");
        reveal_strlit("6");
        reveal_strlit("7");
        reveal_strlit("8");
        reveal_strlit("9");
    }
    let text: &'static str = match digit {
        0 => "0",
        1 => "1",
        2 => "2",
        3 => "3",
        4 => "4",
        5 => "5",
        6 => "6",
        7 => "7",
        8 => "8",
        _ => "9",
    };
    proof {
        assert(text@ =~= seq![digit_char(digit as nat)]);
    }
    text
}

/// Writes a number in decimal digits behind a text.
fn append_decimal(out: &mut String, n: u64)
    ensures
        final(out)@ == old(out)@ + decimal(n as nat),
    decreases n,
{
    if n >= 10 {
        append_decimal(out, n / 10);
    }
    out.append(digit_text(n % 10));
    proof {
        assert(final(out)@ =~= old(out)@ + decimal(n as nat));
    }
}

/// Writes a number in at least two decimal digits behind a text.
fn append_two_digits(out: &mut String, n: u64)
    ensures
        final(out)@ == old(out)@ + two_digits(n as nat),
{
    if n < 10 {
        out.append("0");
        proof {
            reveal_strlit("0");
        }
    }
    append_decimal(out, n);
    proof {
        assert(final(out)@ =~= old(out)@ + two_digits(n as nat));
    }
}

/// A position as a clock shows it, minutes and seconds.
pub fn clock_text(position_ms: u64) -> (text: String)
    ensures
        text@ == clock(position_ms as nat),
{
    let seconds: u64 = position_ms / 1000;
    let mut text = String::new();
    append_two_digits(&mut text, seconds / 60);
    text.append(":");
    proof {
        reveal_strlit(":");
    }
    append_two_digits(&mut text, seconds % 60);
    proof {
        assert(text@ =~= clock(position_ms as nat));
    }
    text
}

/// How long the loop may wait for a key before the next tick is due:
/// what is left of the tick, and nothing once it is over.
pub fn poll_timeout(tick_rate_ms: u64, since_tick_ms: u64) -> (wait_ms: u64)
    ensures
        wait_ms == if since_tick_ms >= tick_rate_ms {
            0
        } else {
            tick_rate_ms - since_tick_ms
        },
{
    tick_rate_ms.saturating_sub(since_tick_ms)
}

/// Whether something that happens once in `period_ms` is due after
/// `since_ms`.
pub fn is_due(since_ms: u64, period_ms: u64) -> (due: bool)
    ensures
        due == (since_ms >= period_ms),
{
    since_ms >= period_ms
}

} // verus!
