//! The player's state, the messages it exchanges with the audio thread and
//! the terminal, and the rules by which each key press and player event
//! changes the state. The rules are stated here as functions on the
//! abstract state; `app` implements them.

use vstd::prelude::*;
use vstd::view::View as _;
use crate::art::ArtRenderer;
use crate::library::Entry;
use crate::paths::{path_parent, path_same};
use crate::text::{decimal, is_infix, lowercase};

verus! {

/// Which of the two screens is shown.
#[derive(PartialEq, Eq, Structural, Clone, Copy, Debug)]
pub enum View {
    Browser,
    NowPlaying,
}

/// Whether the player is playing.
#[derive(PartialEq, Eq, Structural, Clone, Copy, Debug)]
pub enum PlayState {
    Stopped,
    Playing,
    Paused,
}

/// The keys the player reacts to; every other key is `Other`.
#[derive(PartialEq, Eq, Structural, Clone, Copy, Debug)]
pub enum KeyCode {
    Char(char),
    Enter,
    Esc,
    Backspace,
    Up,
    Down,
    Left,
    Right,
    PageUp,
    PageDown,
    Tab,
    Other,
}

/// A key press: its code, and whether Control was held.
#[derive(PartialEq, Eq, Structural, Clone, Copy, Debug)]
pub struct KeyEvent {
    pub code: KeyCode,
    pub ctrl: bool,
}

/// A command for the audio thread.
#[derive(Debug)]
pub enum PlayerCommand {
    /// Play this file from its start.
    Play(String),
    TogglePause,
    Stop,
    /// Set the volume, in percent (100 is the file's own level, 200 the most).
    SetVolume(u32),
    /// Move the playing position by this many seconds.
    SeekBy(i32),
}

/// What the audio thread reports.
#[derive(Debug)]
pub enum PlayerEvent {
    /// A file started playing; its length when known, in milliseconds.
    Started { path: String, duration_ms: Option<u64> },
    /// The playing position, in milliseconds.
    Position(u64),
    /// Playback was paused (`true`) or resumed (`false`).
    Paused(bool),
    /// The file played to its end.
    Finished,
    Error(String),
}

/// Work that the state machine asks its driver to do.
#[derive(Debug)]
pub enum Effect {
    /// Nothing to do.
    Idle,
    /// Send this command to the audio thread.
    Player(PlayerCommand),
    /// List this directory and hand the listing to `refresh_entries`.
    LoadDir(String),
    /// List the audio files of `dir` and hand them, with `track`, to `start_queue`.
    LoadQueue { dir: String, track: String },
}

/// The view of a `PlayerCommand`.
pub enum CommandView {
    Play(Seq<char>),
    TogglePause,
    Stop,
    SetVolume(u32),
    SeekBy(i32),
}

/// The view of a `PlayerEvent`.
pub enum EventView {
    Started { path: Seq<char>, duration_ms: Option<u64> },
    Position(u64),
    Paused(bool),
    Finished,
    Error(Seq<char>),
}

/// The view of an `Effect`.
pub enum EffectView {
    Idle,
    Player(CommandView),
    LoadDir(Seq<char>),
    LoadQueue { dir: Seq<char>, track: Seq<char> },
}

impl vstd::view::View for PlayerCommand {
    type V = CommandView;

    open spec fn view(&self) -> CommandView {
        match self {
            PlayerCommand::Play(p) => CommandView::Play(p@),
            PlayerCommand::TogglePause => CommandView::TogglePause,
            PlayerCommand::Stop => CommandView::Stop,
            PlayerCommand::SetVolume(v) => CommandView::SetVolume(*v),
            PlayerCommand::SeekBy(s) => CommandView::SeekBy(*s),
        }
    }
}

impl vstd::view::View for PlayerEvent {
    type V = EventView;

    open spec fn view(&self) -> EventView {
        match self {
            PlayerEvent::Started { path, duration_ms } => EventView::Started {
                path: path@,
                duration_ms: *duration_ms,
            },
            PlayerEvent::Position(p) => EventView::Position(*p),
            PlayerEvent::Paused(b) => EventView::Paused(*b),
            PlayerEvent::Finished => EventView::Finished,
            PlayerEvent::Error(m) => EventView::Error(m@),
        }
    }
}

impl vstd::view::View for Effect {
    type V = EffectView;

    open spec fn view(&self) -> EffectView {
        match self {
            Effect::Idle => EffectView::Idle,
            Effect::Player(c) => EffectView::Player(c@),
            Effect::LoadDir(d) => EffectView::LoadDir(d@),
            Effect::LoadQueue { dir, track } => EffectView::LoadQueue { dir: dir@, track: track@ },
        }
    }
}

/// How much one key press raises the volume, in percent.
pub const VOLUME_UP: i32 = 5;

/// How much one key press lowers the volume, in percent.
pub const VOLUME_DOWN: i32 = -5;

/// How far one key press seeks forward, in seconds.
pub const SEEK_FORWARD: i32 = 5;

/// How far one key press seeks back, in seconds.
pub const SEEK_BACK: i32 = -5;

/// The highest volume, in percent.
pub const VOLUME_MAX: u32 = 200;

/// `x` clamped into `lo ..= hi` (for `lo <= hi`).
pub open spec fn clamp_int(x: int, lo: int, hi: int) -> int {
    if x < lo {
        lo
    } else if x > hi {
        hi
    } else {
        x
    }
}

/// The entries that a search query keeps: all of them for an empty query,
/// else those whose name contains the query, both in lower case.
pub open spec fn query_matches(q: Seq<char>) -> spec_fn(Entry) -> bool {
    |e: Entry| q.len() == 0 || is_infix(lowercase(q), lowercase(e.name@))
}

/// `files[i]` is the first of `files` that is the same path as `track`.
pub open spec fn first_at(files: Seq<Seq<char>>, track: Seq<char>, i: int) -> bool {
    &&& 0 <= i < files.len()
    &&& path_same(files[i], track)
    &&& forall|j: int| 0 <= j < i ==> !path_same(files[j], track)
}

/// Where playback starts in a queue: at the first file that is the same
/// path as the chosen track, or at the top when none is.
pub open spec fn start_index(files: Seq<Seq<char>>, track: Seq<char>) -> int {
    if exists|i: int| first_at(files, track, i) {
        choose|i: int| first_at(files, track, i)
    } else {
        0
    }
}

/// "on" or "off".
pub open spec fn on_off(b: bool) -> Seq<char> {
    if b {
        "on"@
    } else {
        "off"@
    }
}

/// The abstract state of the player.
pub struct AppState {
    pub cwd: Seq<char>,
    pub entries: Seq<Entry>,
    pub selected: usize,
    pub view: View,
    pub should_quit: bool,
    pub search_active: bool,
    pub search_query: Seq<char>,
    pub queue: Seq<Seq<char>>,
    pub queue_pos: Option<usize>,
    pub play_state: PlayState,
    pub current_track: Option<Seq<char>>,
    pub current_duration_ms: Option<u64>,
    pub position_ms: u64,
    pub volume_pct: u32,
    pub repeat: bool,
    pub status: Seq<char>,
    pub art: ArtRenderer,
}

impl AppState {
    /// Entries currently shown in the browser.
    pub open spec fn visible(self) -> Seq<Entry> {
        self.entries.filter(query_matches(self.search_query))
    }

    /// The selection moved back into the visible list.
    pub open spec fn clamp_selection(self) -> AppState {
        let n = self.visible().len();
        AppState {
            selected: if n == 0 {
                0
            } else if self.selected < n {
                self.selected
            } else {
                (n - 1) as usize
            },
            ..self
        }
    }

    /// The selection moved by `delta`, stopping at the ends of the list.
    pub open spec fn move_selection(self, delta: int) -> AppState {
        let n = self.visible().len();
        if n == 0 {
            self
        } else {
            AppState {
                selected: clamp_int((self.selected as i32) + delta, 0, n - 1) as usize,
                ..self
            }
        }
    }

    /// The search box closed, its query cleared, the selection at the top.
    pub open spec fn close_search(self) -> AppState {
        AppState { search_active: false, search_query: Seq::empty(), selected: 0, ..self }
    }

    /// The search box opened fresh when it was closed, or closed when open.
    pub open spec fn toggle_search(self) -> AppState {
        if self.search_active {
            self.close_search()
        } else {
            AppState { search_active: true, search_query: Seq::empty(), selected: 0, ..self }
        }
    }

    /// A new listing of the current directory shown from its top, search closed.
    pub open spec fn refresh_entries(self, entries: Seq<Entry>) -> AppState {
        AppState {
            entries,
            selected: 0,
            search_active: false,
            search_query: Seq::empty(),
            ..self
        }
    }

    /// The entry under the selection, if any.
    pub open spec fn selected_entry(self) -> Option<Entry> {
        if self.selected < self.visible().len() {
            Some(self.visible()[self.selected as int])
        } else {
            None
        }
    }

    /// Enter on a directory opens it; on a file, queues the file's
    /// directory from that file on.
    pub open spec fn enter_or_play(self) -> (AppState, EffectView) {
        match self.selected_entry() {
            None => (self, EffectView::Idle),
            Some(e) => if e.is_dir {
                (AppState { cwd: e.path@, ..self }, EffectView::LoadDir(e.path@))
            } else {
                (
                    self,
                    EffectView::LoadQueue {
                        dir: match path_parent(e.path@) {
                            Some(d) => d,
                            None => self.cwd,
                        },
                        track: e.path@,
                    },
                )
            },
        }
    }

    /// Up to the parent directory, when there is one.
    pub open spec fn go_up(self) -> (AppState, EffectView) {
        match path_parent(self.cwd) {
            Some(p) => (AppState { cwd: p, ..self }, EffectView::LoadDir(p)),
            None => (self, EffectView::Idle),
        }
    }

    /// Plays the queue item under the queue position, if there is one.
    pub open spec fn play_current(self) -> (AppState, EffectView) {
        match self.queue_pos {
            Some(pos) => if pos < self.queue.len() {
                (
                    AppState { view: View::NowPlaying, ..self },
                    EffectView::Player(CommandView::Play(self.queue[pos as int])),
                )
            } else {
                (self, EffectView::Idle)
            },
            None => (self, EffectView::Idle),
        }
    }

    /// The queue replaced by `files`, positioned at `track`, and playback started.
    pub open spec fn start_queue(self, files: Seq<Seq<char>>, track: Seq<char>) -> (
        AppState,
        EffectView,
    ) {
        AppState {
            queue: files,
            queue_pos: Some(start_index(files, track) as usize),
            ..self
        }.play_current()
    }

    /// Pause or resume, when a track is loaded.
    pub open spec fn toggle_pause(self) -> (AppState, EffectView) {
        if self.current_track is Some {
            (self, EffectView::Player(CommandView::TogglePause))
        } else {
            (self, EffectView::Idle)
        }
    }

    /// Playback stopped and forgotten.
    pub open spec fn stop(self) -> (AppState, EffectView) {
        (
            AppState {
                play_state: PlayState::Stopped,
                current_track: None,
                position_ms: 0,
                ..self
            },
            EffectView::Player(CommandView::Stop),
        )
    }

    /// The next queue item; at the end, the first one when repeating, else
    /// playback stops with the status "Queue end".
    pub open spec fn next_track(self) -> (AppState, EffectView) {
        match self.queue_pos {
            Some(pos) => if pos + 1 < self.queue.len() {
                AppState { queue_pos: Some((pos + 1) as usize), ..self }.play_current()
            } else if self.repeat && self.queue.len() > 0 {
                AppState { queue_pos: Some(0), ..self }.play_current()
            } else {
                let (s, e) = self.stop();
                (AppState { status: "Queue end"@, ..s }, e)
            },
            None => (self, EffectView::Idle),
        }
    }

    /// The previous queue item, unless at the first.
    pub open spec fn prev_track(self) -> (AppState, EffectView) {
        match self.queue_pos {
            Some(pos) => if pos > 0 {
                AppState { queue_pos: Some((pos - 1) as usize), ..self }.play_current()
            } else {
                (self, EffectView::Idle)
            },
            None => (self, EffectView::Idle),
        }
    }

    /// The volume changed by `delta` percent within `0 ..= 200`, reported in the status line.
    pub open spec fn adjust_volume(self, delta: int) -> (AppState, EffectView) {
        let v = clamp_int(self.volume_pct + delta, 0, VOLUME_MAX as int) as u32;
        (
            AppState { volume_pct: v, status: "Volume: "@ + decimal(v as nat) + "%"@, ..self },
            EffectView::Player(CommandView::SetVolume(v)),
        )
    }

    /// Seek by `secs` seconds, when a track is loaded.
    pub open spec fn seek_by(self, secs: i32) -> (AppState, EffectView) {
        if self.current_track is Some {
            (self, EffectView::Player(CommandView::SeekBy(secs)))
        } else {
            (self, EffectView::Idle)
        }
    }

    /// Repeat switched, reported in the status line.
    pub open spec fn toggle_repeat(self) -> AppState {
        AppState { repeat: !self.repeat, status: "Repeat: "@ + on_off(!self.repeat), ..self }
    }

    /// What a report of the audio thread changes.
    pub open spec fn on_player_event(self, event: EventView) -> (AppState, EffectView) {
        match event {
            EventView::Started { path, duration_ms } => (
                AppState {
                    current_track: Some(path),
                    current_duration_ms: duration_ms,
                    position_ms: 0,
                    play_state: PlayState::Playing,
                    ..self
                },
                EffectView::Idle,
            ),
            EventView::Position(p) => (AppState { position_ms: p, ..self }, EffectView::Idle),
            EventView::Paused(b) => (
                AppState {
                    play_state: if b {
                        PlayState::Paused
                    } else {
                        PlayState::Playing
                    },
                    ..self
                },
                EffectView::Idle,
            ),
            EventView::Finished => self.next_track(),
            EventView::Error(msg) => (
                AppState { status: "Error: "@ + msg, ..self },
                EffectView::Idle,
            ),
        }
    }

    /// A key while the search box is focused: typed characters build the
    /// query, Up/Down move through the filtered list, Enter leaves the box
    /// and opens or plays the selection, Esc or "/" close the box.
    pub open spec fn handle_search_key(self, key: KeyEvent) -> (AppState, EffectView) {
        match key.code {
            KeyCode::Esc => (self.close_search(), EffectView::Idle),
            KeyCode::Enter => AppState { search_active: false, ..self }.enter_or_play(),
            KeyCode::Backspace => (
                AppState {
                    search_query: if self.search_query.len() > 0 {
                        self.search_query.drop_last()
                    } else {
                        self.search_query
                    },
                    ..self
                }.clamp_selection(),
                EffectView::Idle,
            ),
            KeyCode::Down => (self.move_selection(1), EffectView::Idle),
            KeyCode::Up => (self.move_selection(-1), EffectView::Idle),
            KeyCode::Char(c) => if c == '/' {
                (self.close_search(), EffectView::Idle)
            } else {
                (
                    AppState { search_query: self.search_query.push(c), ..self }.clamp_selection(),
                    EffectView::Idle,
                )
            },
            _ => (self, EffectView::Idle),
        }
    }

    /// Back: up a directory in the browser, the previous track elsewhere.
    pub open spec fn go_back(self) -> (AppState, EffectView) {
        if self.view == View::Browser {
            self.go_up()
        } else {
            self.prev_track()
        }
    }

    /// Forward: the next track on the now-playing screen, open or play elsewhere.
    pub open spec fn go_forward(self) -> (AppState, EffectView) {
        if self.view == View::NowPlaying {
            self.next_track()
        } else {
            self.enter_or_play()
        }
    }

    /// A character key outside the search box.
    pub open spec fn handle_char(self, c: char, ctrl: bool) -> (AppState, EffectView) {
        if c == 'q' || (c == 'c' && ctrl) {
            (AppState { should_quit: true, ..self }, EffectView::Idle)
        } else if c == '/' {
            (self.toggle_search(), EffectView::Idle)
        } else if c == 'j' {
            (self.move_selection(1), EffectView::Idle)
        } else if c == 'k' {
            (self.move_selection(-1), EffectView::Idle)
        } else if c == 'h' {
            self.go_back()
        } else if c == 'l' {
            self.go_forward()
        } else if c == ' ' {
            self.toggle_pause()
        } else if c == 's' {
            self.stop()
        } else if c == 'n' {
            self.next_track()
        } else if c == 'p' {
            self.prev_track()
        } else if c == '+' || c == '=' {
            self.adjust_volume(VOLUME_UP as int)
        } else if c == '-' {
            self.adjust_volume(VOLUME_DOWN as int)
        } else if c == '.' {
            self.seek_by(SEEK_FORWARD)
        } else if c == ',' {
            self.seek_by(SEEK_BACK)
        } else if c == 'r' {
            (self.toggle_repeat(), EffectView::Idle)
        } else if c == '1' {
            (AppState { view: View::Browser, ..self }, EffectView::Idle)
        } else if c == '2' {
            (AppState { view: View::NowPlaying, ..self }, EffectView::Idle)
        } else {
            (self, EffectView::Idle)
        }
    }

    /// A key press.
    pub open spec fn handle_key(self, key: KeyEvent) -> (AppState, EffectView) {
        if self.search_active {
            self.handle_search_key(key)
        } else {
            match key.code {
                KeyCode::Char(c) => self.handle_char(c, key.ctrl),
                KeyCode::Down => (self.move_selection(1), EffectView::Idle),
                KeyCode::Up => (self.move_selection(-1), EffectView::Idle),
                KeyCode::PageDown => (self.move_selection(10), EffectView::Idle),
                KeyCode::PageUp => (self.move_selection(-10), EffectView::Idle),
                KeyCode::Enter => self.enter_or_play(),
                KeyCode::Backspace => self.go_back(),
                KeyCode::Left => self.go_back(),
                KeyCode::Right => self.go_forward(),
                KeyCode::Tab => (
                    AppState {
                        view: if self.view == View::Browser {
                            View::NowPlaying
                        } else {
                            View::Browser
                        },
                        ..self
                    },
                    EffectView::Idle,
                ),
                _ => (self, EffectView::Idle),
            }
        }
    }
}

/// How far a key moves the selection in the given mode (0 for keys that do not).
pub open spec fn key_step(search_active: bool, key: KeyEvent) -> int {
    match key.code {
        KeyCode::Down => 1,
        KeyCode::Up => -1,
        KeyCode::PageDown => if search_active {
            0
        } else {
            10
        },
        KeyCode::PageUp => if search_active {
            0
        } else {
            -10
        },
        KeyCode::Char(c) => if !search_active && c == 'j' {
            1
        } else if !search_active && c == 'k' {
            -1
        } else {
            0
        },
        _ => 0,
    }
}

} // verus!
