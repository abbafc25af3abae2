//! The player's state and its transitions, as the terminal front end drives
//! them: each method performs one rule of `state` on the concrete state and
//! hands back the work (`Effect`) that the driver must do.

use vstd::prelude::*;
use vstd::view::View as _;
use crate::art::ArtRenderer;
use crate::library::Entry;
use crate::paths::{opt_chars, parent_of, path_same, same_path};
use crate::state::{
    AppState, CommandView, Effect, EffectView, EventView, KeyCode, KeyEvent, PlayState, PlayerCommand,
    PlayerEvent, View, VOLUME_MAX, VOLUME_UP, VOLUME_DOWN, SEEK_FORWARD, SEEK_BACK, first_at, key_step, query_matches,
};
use crate::text::{chars_of, contains_chars, pop_char, push_char, push_decimal, to_lowercase};

verus! {

broadcast use vstd::seq_lib::group_seq_properties;

/// The player's state.
pub struct App {
    /// The directory shown in the browser.
    pub cwd: String,
    /// Its listing.
    pub entries: Vec<Entry>,
    /// Index of the selection in the visible part of the listing.
    pub selected: usize,
    pub view: View,
    pub should_quit: bool,
    pub search_active: bool,
    pub search_query: String,
    /// The play queue: audio files of one directory.
    pub queue: Vec<String>,
    pub queue_pos: Option<usize>,
    pub play_state: PlayState,
    pub current_track: Option<String>,
    /// Length of the current track, in milliseconds, when known.
    pub current_duration_ms: Option<u64>,
    /// Playing position, in milliseconds.
    pub position_ms: u64,
    /// Volume in percent, within `0 ..= 200`.
    pub volume_pct: u32,
    pub repeat: bool,
    /// The message on the status line.
    pub status: String,
    pub art: ArtRenderer,
}

/// The view of a list of strings.
pub open spec fn strings_view(v: Seq<String>) -> Seq<Seq<char>> {
    v.map_values(|s: String| s@)
}

impl vstd::view::View for App {
    type V = AppState;

    open spec fn view(&self) -> AppState {
        AppState {
            cwd: self.cwd@,
            entries: self.entries@,
            selected: self.selected,
            view: self.view,
            should_quit: self.should_quit,
            search_active: self.search_active,
            search_query: self.search_query@,
            queue: strings_view(self.queue@),
            queue_pos: self.queue_pos,
            play_state: self.play_state,
            current_track: opt_chars(self.current_track),
            current_duration_ms: self.current_duration_ms,
            position_ms: self.position_ms,
            volume_pct: self.volume_pct,
            repeat: self.repeat,
            status: self.status@,
            art: self.art,
        }
    }
}

/// The greeting on the status line of a new player.
pub open spec fn welcome() -> Seq<char> {
    "Welcome to FUSKYOM — h keys help below"@
}

impl App {
    /// A player browsing `start_dir`, whose listing is `entries`: nothing
    /// queued or playing, volume at 100%, the greeting on the status line.
    pub fn new(start_dir: String, entries: Vec<Entry>) -> (r: App)
        ensures
            r@.cwd == start_dir@,
            r@.entries == entries@,
            r@.selected == 0,
            r@.view == View::Browser,
            !r@.should_quit,
            !r@.search_active,
            r@.search_query.len() == 0,
            r@.queue.len() == 0,
            r@.queue_pos is None,
            r@.play_state == PlayState::Stopped,
            r@.current_track is None,
            r@.current_duration_ms is None,
            r@.position_ms == 0,
            r@.volume_pct == 100,
            !r@.repeat,
            r@.status == welcome(),
            r.art@.entries.len() == 0,
            !r.art@.chafa_missing,
    {
        App {
            cwd: start_dir,
            entries,
            selected: 0,
            view: View::Browser,
            should_quit: false,
            search_active: false,
            search_query: String::new(),
            queue: Vec::new(),
            queue_pos: None,
            play_state: PlayState::Stopped,
            current_track: None,
            current_duration_ms: None,
            position_ms: 0,
            volume_pct: 100,
            repeat: false,
            status: String::from_str("Welcome to FUSKYOM — h keys help below"),
            art: ArtRenderer::new(),
        }
    }

    /// Shows a new listing of the current directory from its top, with the
    /// search closed.
    pub fn refresh_entries(&mut self, entries: Vec<Entry>)
        ensures
            final(self)@ == old(self)@.refresh_entries(entries@),
    {
        self.entries = entries;
        self.selected = 0;
        self.search_active = false;
        self.search_query = String::new();
        assert(final(self)@.search_query =~= Seq::<char>::empty());
    }

    /// Entries currently shown in the browser: everything, unless a search
    /// filter is active, in which case only entries whose name contains the
    /// query (case-insensitive) are kept.
    pub fn visible_entries(&self) -> (r: Vec<&Entry>)
        ensures
            r@.map_values(|e: &Entry| *e) == self@.visible(),
    {
        let ghost pred = query_matches(self.search_query@);
        let empty = self.search_query.as_str().is_empty();
        let q: Vec<char> = if empty {
            Vec::new()
        } else {
            let lower = to_lowercase(self.search_query.as_str());
            chars_of(lower.as_str())
        };
        let mut r: Vec<&Entry> = Vec::new();
        let n: usize = self.entries.len();
        let mut i: usize = 0;
        while i < n
            invariant
                n == self.entries.len(),
                i <= n,
                pred == query_matches(self.search_query@),
                empty == (self.search_query@.len() == 0),
                !empty ==> q@ == crate::text::lowercase(self.search_query@),
                r@.map_values(|e: &Entry| *e) == self.entries@.take(i as int).filter(pred),
            decreases n - i,
        {
            let e = &self.entries[i];
            proof {
                assert(self.entries@.take(i + 1) =~= self.entries@.take(i as int).push(*e));
                self.entries@.take(i as int).lemma_filter_push(*e, pred);
            }
            let keep = if empty {
                true
            } else {
                let lower = to_lowercase(e.name.as_str());
                let name = chars_of(lower.as_str());
                contains_chars(&name, &q)
            };
            if keep {
                r.push(e);
                assert(r@.map_values(|e: &Entry| *e) =~= self.entries@.take(i + 1).filter(pred));
            }
            i = i + 1;
        }
        assert(self.entries@.take(n as int) =~= self.entries@);
        r
    }

    /// How many entries the browser shows.
    fn visible_len(&self) -> (n: usize)
        ensures
            n == self@.visible().len(),
    {
        let v = self.visible_entries();
        v.len()
    }

    /// Moves the selection back into the visible list.
    pub fn clamp_selection(&mut self)
        ensures
            final(self)@ == old(self)@.clamp_selection(),
    {
        let len: usize = self.visible_len();
        self.selected = if len == 0 {
            0
        } else if self.selected < len {
            self.selected
        } else {
            len - 1
        };
    }

    /// The entry under the selection, if any.
    pub fn selected_entry(&self) -> (r: Option<Entry>)
        ensures
            r == self@.selected_entry(),
    {
        let v = self.visible_entries();
        if self.selected < v.len() {
            let e: &Entry = v[self.selected];
            assert(*e == self@.visible()[self.selected as int]);
            Some(e.clone())
        } else {
            None
        }
    }

    /// Moves the selection by `delta`, stopping at the ends of the list.
    pub fn move_selection(&mut self, delta: i32)
        requires
            old(self).entries.len() <= i32::MAX,
            i32::MIN <= (old(self).selected as i32) + delta <= i32::MAX,
        ensures
            final(self)@ == old(self)@.move_selection(delta as int),
    {
        let len: usize = self.visible_len();
        if len == 0 {
            return;
        }
        proof {
            self.entries@.lemma_filter_len(query_matches(self.search_query@));
        }
        let len: i32 = len as i32;
        let mut idx: i32 = self.selected as i32 + delta;
        idx = if idx < 0 {
            0
        } else if idx > len - 1 {
            len - 1
        } else {
            idx
        };
        self.selected = idx as usize;
    }

    /// Toggles the "/" search box: opens it fresh if it was closed, or
    /// closes it (clearing the query and restoring the full list) if it was
    /// already open.
    pub fn toggle_search(&mut self)
        ensures
            final(self)@ == old(self)@.toggle_search(),
    {
        if self.search_active {
            self.close_search();
        } else {
            self.search_active = true;
            self.search_query = String::new();
            self.selected = 0;
            assert(final(self)@.search_query =~= Seq::<char>::empty());
        }
    }

    /// Closes the search box, clearing the query.
    pub fn close_search(&mut self)
        ensures
            final(self)@ == old(self)@.close_search(),
    {
        self.search_active = false;
        self.search_query = String::new();
        self.selected = 0;
        assert(final(self)@.search_query =~= Seq::<char>::empty());
    }

    /// Key handling while the search box is focused: typed characters build
    /// the query instead of triggering playback commands, but Up/Down still
    /// navigate the filtered results.
    pub fn handle_search_key(&mut self, key: KeyEvent) -> (r: Effect)
        requires
            key_step(true, key) != 0 ==> old(self).entries.len() <= i32::MAX && i32::MIN <= (
            old(self).selected as i32) + key_step(true, key) <= i32::MAX,
        ensures
            (final(self)@, r@) == old(self)@.handle_search_key(key),
    {
        match key.code {
            KeyCode::Esc => {
                self.close_search();
                Effect::Idle
            },
            KeyCode::Enter => {
                self.search_active = false;
                self.enter_or_play()
            },
            KeyCode::Backspace => {
                let _ = pop_char(&mut self.search_query);
                self.clamp_selection();
                Effect::Idle
            },
            KeyCode::Down => {
                self.move_selection(1);
                Effect::Idle
            },
            KeyCode::Up => {
                self.move_selection(-1);
                Effect::Idle
            },
            KeyCode::Char(c) => {
                if c == '/' {
                    self.close_search();
                } else {
                    push_char(&mut self.search_query, c);
                    self.clamp_selection();
                }
                Effect::Idle
            },
            _ => Effect::Idle,
        }
    }

    /// Enter on the selection: a directory is opened (the driver lists it
    /// and calls `refresh_entries`); a file starts its directory's queue
    /// from that file (the driver lists the audio files and calls
    /// `start_queue`).
    pub fn enter_or_play(&mut self) -> (r: Effect)
        ensures
            (final(self)@, r@) == old(self)@.enter_or_play(),
    {
        match self.selected_entry() {
            None => Effect::Idle,
            Some(entry) => {
                if entry.is_dir {
                    self.cwd = entry.path.clone();
                    Effect::LoadDir(entry.path)
                } else {
                    let dir = match parent_of(entry.path.as_str()) {
                        Some(d) => d,
                        None => self.cwd.clone(),
                    };
                    Effect::LoadQueue { dir, track: entry.path }
                }
            },
        }
    }

    /// Goes up to the parent directory, when there is one (the driver lists
    /// it and calls `refresh_entries`).
    pub fn go_up(&mut self) -> (r: Effect)
        ensures
            (final(self)@, r@) == old(self)@.go_up(),
    {
        match parent_of(self.cwd.as_str()) {
            Some(parent) => {
                self.cwd = parent.clone();
                Effect::LoadDir(parent)
            },
            None => Effect::Idle,
        }
    }

    /// Replaces the queue by `files` (the audio files of the chosen track's
    /// directory), positions it at `track` (or at the top when `track` is not
    /// among them) and starts playback: "play this, keep going through the
    /// folder".
    pub fn start_queue(&mut self, files: Vec<String>, track: &str) -> (r: Effect)
        ensures
            (final(self)@, r@) == old(self)@.start_queue(strings_view(files@), track@),
    {
        let ghost fv = strings_view(files@);
        let n: usize = files.len();
        let mut i: usize = 0;
        while i < n && !same_path(files[i].as_str(), track)
            invariant
                n == files.len(),
                i <= n,
                fv == strings_view(files@),
                forall|j: int| 0 <= j < i ==> !path_same(fv[j], track@),
            decreases n - i,
        {
            i = i + 1;
        }
        let found = i < n;
        let start: usize = if found {
            i
        } else {
            0
        };
        proof {
            if found {
                assert(first_at(fv, track@, i as int));
                assert forall|a: int| first_at(fv, track@, a) implies a == i by {
                    if a < i {
                    } else if a > i {
                        assert(path_same(fv[i as int], track@));
                    }
                }
            } else {
                assert forall|a: int| !first_at(fv, track@, a) by {}
            }
        }
        self.queue = files;
        self.queue_pos = Some(start);
        self.play_current_queue_item()
    }

    /// Plays the queue item under the queue position, if there is one, and
    /// shows the now-playing screen.
    pub fn play_current_queue_item(&mut self) -> (r: Effect)
        ensures
            (final(self)@, r@) == old(self)@.play_current(),
    {
        match self.queue_pos {
            Some(pos) => {
                if pos < self.queue.len() {
                    let path = self.queue[pos].clone();
                    self.view = View::NowPlaying;
                    Effect::Player(PlayerCommand::Play(path))
                } else {
                    Effect::Idle
                }
            },
            None => Effect::Idle,
        }
    }

    /// Pauses or resumes, when a track is loaded.
    pub fn toggle_pause(&mut self) -> (r: Effect)
        ensures
            (final(self)@, r@) == old(self)@.toggle_pause(),
    {
        if self.current_track.is_some() {
            Effect::Player(PlayerCommand::TogglePause)
        } else {
            Effect::Idle
        }
    }

    /// Stops playback and forgets the track.
    pub fn stop(&mut self) -> (r: Effect)
        ensures
            (final(self)@, r@) == old(self)@.stop(),
    {
        self.play_state = PlayState::Stopped;
        self.current_track = None;
        self.position_ms = 0;
        Effect::Player(PlayerCommand::Stop)
    }

    /// Moves to the next queue item; at the end of the queue, wraps to the
    /// first item when repeat is on, else stops with "Queue end".
    pub fn next_track(&mut self) -> (r: Effect)
        ensures
            (final(self)@, r@) == old(self)@.next_track(),
    {
        match self.queue_pos {
            Some(pos) => {
                let len: usize = self.queue.len();
                if len > 0 && pos < len - 1 {
                    self.queue_pos = Some(pos + 1);
                    self.play_current_queue_item()
                } else if self.repeat && len > 0 {
                    self.queue_pos = Some(0);
                    self.play_current_queue_item()
                } else {
                    let r = self.stop();
                    self.status = String::from_str("Queue end");
                    r
                }
            },
            None => Effect::Idle,
        }
    }

    /// Moves to the previous queue item, unless at the first.
    pub fn prev_track(&mut self) -> (r: Effect)
        ensures
            (final(self)@, r@) == old(self)@.prev_track(),
    {
        match self.queue_pos {
            Some(pos) => {
                if pos > 0 {
                    self.queue_pos = Some(pos - 1);
                    self.play_current_queue_item()
                } else {
                    Effect::Idle
                }
            },
            None => Effect::Idle,
        }
    }

    /// Changes the volume by `delta` percent, within `0 ..= 200`, and shows
    /// it on the status line.
    pub fn adjust_volume(&mut self, delta: i32) -> (r: Effect)
        ensures
            (final(self)@, r@) == old(self)@.adjust_volume(delta as int),
    {
        let sum: i64 = self.volume_pct as i64 + delta as i64;
        let v: u32 = if sum < 0 {
            0
        } else if sum > VOLUME_MAX as i64 {
            VOLUME_MAX
        } else {
            sum as u32
        };
        self.volume_pct = v;
        let mut msg = String::from_str("Volume: ");
        push_decimal(&mut msg, v as u64);
        msg.append("%");
        self.status = msg;
        Effect::Player(PlayerCommand::SetVolume(v))
    }

    /// Seeks by `secs` seconds, when a track is loaded.
    pub fn seek_by(&mut self, secs: i32) -> (r: Effect)
        ensures
            (final(self)@, r@) == old(self)@.seek_by(secs),
    {
        if self.current_track.is_some() {
            Effect::Player(PlayerCommand::SeekBy(secs))
        } else {
            Effect::Idle
        }
    }

    /// Switches repeat and shows it on the status line.
    pub fn toggle_repeat(&mut self)
        ensures
            final(self)@ == old(self)@.toggle_repeat(),
    {
        self.repeat = !self.repeat;
        let mut msg = String::from_str("Repeat: ");
        if self.repeat {
            msg.append("on");
        } else {
            msg.append("off");
        }
        self.status = msg;
    }

    /// Takes in a report of the audio thread.
    pub fn on_player_event(&mut self, event: PlayerEvent) -> (r: Effect)
        ensures
            (final(self)@, r@) == old(self)@.on_player_event(event@),
    {
        match event {
            PlayerEvent::Started { path, duration_ms } => {
                self.current_track = Some(path);
                self.current_duration_ms = duration_ms;
                self.position_ms = 0;
                self.play_state = PlayState::Playing;
                Effect::Idle
            },
            PlayerEvent::Position(pos) => {
                self.position_ms = pos;
                Effect::Idle
            },
            PlayerEvent::Paused(paused) => {
                self.play_state = if paused {
                    PlayState::Paused
                } else {
                    PlayState::Playing
                };
                Effect::Idle
            },
            PlayerEvent::Finished => self.next_track(),
            PlayerEvent::Error(msg) => {
                let mut s = String::from_str("Error: ");
                s.append(msg.as_str());
                self.status = s;
                Effect::Idle
            },
        }
    }

    /// Back: up a directory in the browser, the previous track elsewhere.
    fn go_back(&mut self) -> (r: Effect)
        ensures
            (final(self)@, r@) == old(self)@.go_back(),
    {
        if self.view == View::Browser {
            self.go_up()
        } else {
            self.prev_track()
        }
    }

    /// Forward: the next track on the now-playing screen, open or play elsewhere.
    fn go_forward(&mut self) -> (r: Effect)
        ensures
            (final(self)@, r@) == old(self)@.go_forward(),
    {
        if self.view == View::NowPlaying {
            self.next_track()
        } else {
            self.enter_or_play()
        }
    }

    /// A character key outside the search box.
    fn handle_char(&mut self, c: char, ctrl: bool) -> (r: Effect)
        requires
            c == 'j' ==> old(self).entries.len() <= i32::MAX && (old(self).selected as i32) + 1
                <= i32::MAX,
            c == 'k' ==> old(self).entries.len() <= i32::MAX && i32::MIN <= (old(self).selected as i32)
                - 1,
        ensures
            (final(self)@, r@) == old(self)@.handle_char(c, ctrl),
    {
        if c == 'q' || (c == 'c' && ctrl) {
            self.should_quit = true;
            Effect::Idle
        } else if c == '/' {
            self.toggle_search();
            Effect::Idle
        } else if c == 'j' {
            self.move_selection(1);
            Effect::Idle
        } else if c == 'k' {
            self.move_selection(-1);
            Effect::Idle
        } else if c == 'h' {
            self.go_back()
        } else if c == 'l' {
            self.go_forward()
        } else if c == ' ' {
            self.toggle_pause()
        } else if c == 's' {
            self.stop()
        } else if c == 'n' {
            self.next_track()
        } else if c == 'p' {
            self.prev_track()
        } else if c == '+' || c == '=' {
            self.adjust_volume(VOLUME_UP)
        } else if c == '-' {
            self.adjust_volume(VOLUME_DOWN)
        } else if c == '.' {
            self.seek_by(SEEK_FORWARD)
        } else if c == ',' {
            self.seek_by(SEEK_BACK)
        } else if c == 'r' {
            self.toggle_repeat();
            Effect::Idle
        } else if c == '1' {
            self.view = View::Browser;
            Effect::Idle
        } else if c == '2' {
            self.view = View::NowPlaying;
            Effect::Idle
        } else {
            Effect::Idle
        }
    }

    /// Handles a key press. While the search box is open, keys go to it;
    /// otherwise: q or Ctrl-C quit, / opens the search, Down/j, Up/k,
    /// PageDown and PageUp move the selection, Enter opens or plays,
    /// Backspace/h/Left go back, Right/l go forward, space pauses, s stops,
    /// n and p change track, + or = and - change the volume, . and , seek,
    /// r switches repeat, 1, 2 and Tab switch screens.
    pub fn handle_key(&mut self, key: KeyEvent) -> (r: Effect)
        requires
            key_step(old(self).search_active, key) != 0 ==> old(self).entries.len() <= i32::MAX
                && i32::MIN <= (old(self).selected as i32) + key_step(old(self).search_active, key)
                <= i32::MAX,
        ensures
            (final(self)@, r@) == old(self)@.handle_key(key),
    {
        if self.search_active {
            return self.handle_search_key(key);
        }
        match key.code {
            KeyCode::Char(c) => self.handle_char(c, key.ctrl),
            KeyCode::Down => {
                self.move_selection(1);
                Effect::Idle
            },
            KeyCode::Up => {
                self.move_selection(-1);
                Effect::Idle
            },
            KeyCode::PageDown => {
                self.move_selection(10);
                Effect::Idle
            },
            KeyCode::PageUp => {
                self.move_selection(-10);
                Effect::Idle
            },
            KeyCode::Enter => self.enter_or_play(),
            KeyCode::Backspace => self.go_back(),
            KeyCode::Left => self.go_back(),
            KeyCode::Right => self.go_forward(),
            KeyCode::Tab => {
                self.view = if self.view == View::Browser {
                    View::NowPlaying
                } else {
                    View::Browser
                };
                Effect::Idle
            },
            _ => Effect::Idle,
        }
    }
}

} // verus!
