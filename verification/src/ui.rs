//! The text that the screens show, computed from the player's state: the
//! drawing itself (widgets, colours, layout) is the front end's.

use vstd::prelude::*;
use crate::app::App;
use crate::library::Entry;
use crate::paths::{path_stem, stem_of};
use crate::state::PlayState;
use crate::text::{decimal, decimal2, push_char, push_decimal, push_decimal2};

verus! {

/// `m:ss` style duration text: whole minutes and seconds, each padded with
/// zeros to two digits (minutes may have more).
pub open spec fn duration_text(millis: u64) -> Seq<char> {
    let secs = millis / 1000;
    decimal2((secs / 60) as nat) + seq![':'] + decimal2((secs % 60) as nat)
}

/// Formats a duration given in milliseconds as `MM:SS`.
pub fn fmt_duration(millis: u64) -> (r: String)
    ensures
        r@ == duration_text(millis),
{
    let secs: u64 = millis / 1000;
    let mut s = String::new();
    push_decimal2(&mut s, secs / 60);
    push_char(&mut s, ':');
    push_decimal2(&mut s, secs % 60);
    assert(s@ =~= duration_text(millis));
    s
}

/// The larger of two integers.
pub open spec fn max_int(a: int, b: int) -> int {
    if a >= b {
        a
    } else {
        b
    }
}

/// The smaller of two integers.
pub open spec fn min_int(a: int, b: int) -> int {
    if a <= b {
        a
    } else {
        b
    }
}

/// The width of the album-art column for a pane of `width` x `height`
/// cells. Cells are about twice as tall as wide, so a square cover needs
/// about `2 * height` columns; that is clamped between 15 and 70% of the
/// width (but at least 15), then kept to at most `width - 15` (saturating
/// at 0), and finally to at least 10.
pub open spec fn art_column_width(width: int, height: int) -> int {
    let max_allowed = max_int(width * 7 / 10, 15);
    let wanted = if 2 * height < 15 {
        15
    } else if 2 * height > max_allowed {
        max_allowed
    } else {
        2 * height
    };
    max_int(min_int(wanted, max_int(width - 15, 0)), 10)
}

/// The width of the album-art column of the now-playing screen.
pub fn art_width(width: u16, height: u16) -> (r: u16)
    ensures
        r == art_column_width(width as int, height as int),
{
    let w: u32 = width as u32;
    let h: u32 = height as u32;
    let seventy: u32 = w * 7 / 10;
    let max_allowed: u32 = if seventy >= 15 {
        seventy
    } else {
        15
    };
    let double: u32 = h * 2;
    let wanted: u32 = if double < 15 {
        15
    } else if double > max_allowed {
        max_allowed
    } else {
        double
    };
    let room: u32 = if w >= 15 {
        w - 15
    } else {
        0
    };
    let narrowed: u32 = if wanted <= room {
        wanted
    } else {
        room
    };
    let result: u32 = if narrowed >= 10 {
        narrowed
    } else {
        10
    };
    assert(result <= 65535) by {
        assert(narrowed <= room);
    }
    result as u16
}

/// The text of a browser row: a folder sign and a trailing slash for
/// directories, a note sign for files.
pub open spec fn entry_text(e: Entry) -> Seq<char> {
    if e.is_dir {
        "📁 "@ + e.name@ + "/"@
    } else {
        "🎵 "@ + e.name@
    }
}

/// The label of a browser row.
pub fn entry_label(e: &Entry) -> (r: String)
    ensures
        r@ == entry_text(*e),
{
    if e.is_dir {
        let mut s = String::from_str("📁 ");
        s.append(e.name.as_str());
        s.append("/");
        s
    } else {
        let mut s = String::from_str("🎵 ");
        s.append(e.name.as_str());
        s
    }
}

/// The browser's title: the directory, and the number of results while a
/// query is typed.
pub open spec fn browser_title_text(cwd: Seq<char>, query: Seq<char>, shown: nat) -> Seq<char> {
    if query.len() == 0 {
        " "@ + cwd + " "@
    } else {
        " "@ + cwd + " ("@ + decimal(shown) + " results) "@
    }
}

/// The title of the browser pane.
pub fn browser_title(app: &App) -> (r: String)
    ensures
        r@ == browser_title_text(app@.cwd, app@.search_query, app@.visible().len()),
{
    let mut s = String::from_str(" ");
    s.append(app.cwd.as_str());
    if app.search_query.as_str().is_empty() {
        s.append(" ");
    } else {
        let shown = app.visible_entries().len();
        s.append(" (");
        push_decimal(&mut s, shown as u64);
        s.append(" results) ");
    }
    s
}

/// The text of the search box.
pub fn search_box_text(app: &App) -> (r: String)
    ensures
        r@ == "/"@ + app@.search_query,
{
    let mut s = String::from_str("/");
    s.append(app.search_query.as_str());
    s
}

/// The name a track is shown by: its file stem, or nothing.
pub open spec fn stem_text(path: Seq<char>) -> Seq<char> {
    match path_stem(path) {
        Some(s) => s,
        None => Seq::empty(),
    }
}

/// The name a track is shown by: its file name without extension.
pub fn track_name(path: &str) -> (r: String)
    ensures
        r@ == stem_text(path@),
{
    match stem_of(path) {
        Some(s) => s,
        None => String::new(),
    }
}

/// The text of a queue row: marked when it is the queue position.
pub open spec fn queue_row_text(path: Seq<char>, is_current: bool) -> Seq<char> {
    if is_current {
        "▶ "@ + stem_text(path)
    } else {
        "  "@ + stem_text(path)
    }
}

/// The labels of the queue rows, in queue order.
pub fn queue_labels(app: &App) -> (r: Vec<String>)
    ensures
        r@.len() == app@.queue.len(),
        forall|i: int|
            0 <= i < r@.len() ==> (#[trigger] r@[i])@ == queue_row_text(
                app@.queue[i],
                app@.queue_pos == Some(i as usize),
            ),
{
    let mut r: Vec<String> = Vec::new();
    let n: usize = app.queue.len();
    let mut i: usize = 0;
    while i < n
        invariant
            n == app.queue.len(),
            i <= n,
            r@.len() == i,
            forall|j: int|
                0 <= j < i ==> (#[trigger] r@[j])@ == queue_row_text(
                    app@.queue[j],
                    app@.queue_pos == Some(j as usize),
                ),
        decreases n - i,
    {
        let is_current = match app.queue_pos {
            Some(p) => p == i,
            None => false,
        };
        let mut s = if is_current {
            String::from_str("▶ ")
        } else {
            String::from_str("  ")
        };
        let name = track_name(app.queue[i].as_str());
        s.append(name.as_str());
        r.push(s);
        i = i + 1;
    }
    r
}

/// The playing state in words, with its sign.
pub open spec fn state_words(s: PlayState) -> Seq<char> {
    match s {
        PlayState::Playing => "▶ playing"@,
        PlayState::Paused => "⏸ paused"@,
        PlayState::Stopped => "⏹ stopped"@,
    }
}

/// The sign of the playing state.
pub open spec fn state_sign(s: PlayState) -> Seq<char> {
    match s {
        PlayState::Playing => "▶"@,
        PlayState::Paused => "⏸"@,
        PlayState::Stopped => "⏹"@,
    }
}

/// The lines of the track pane: the track's name, then its state, volume
/// and repeat; or a single line saying nothing plays.
pub open spec fn track_info_text(app: crate::state::AppState) -> Seq<Seq<char>> {
    match app.current_track {
        None => seq!["No track playing"@],
        Some(t) => seq![
            stem_text(t),
            state_words(app.play_state) + "    vol "@ + decimal(app.volume_pct as nat)
                + "%    repeat "@ + crate::state::on_off(app.repeat),
        ],
    }
}

fn push_state_words(s: &mut String, st: PlayState)
    ensures
        final(s)@ == old(s)@ + state_words(st),
{
    match st {
        PlayState::Playing => s.append("▶ playing"),
        PlayState::Paused => s.append("⏸ paused"),
        PlayState::Stopped => s.append("⏹ stopped"),
    }
}

/// The lines of the track pane.
pub fn track_info_lines(app: &App) -> (r: Vec<String>)
    ensures
        r@.map_values(|s: String| s@) == track_info_text(app@),
{
    let mut r: Vec<String> = Vec::new();
    match &app.current_track {
        None => {
            r.push(String::from_str("No track playing"));
        },
        Some(t) => {
            r.push(track_name(t.as_str()));
            let mut line = String::new();
            push_state_words(&mut line, app.play_state);
            line.append("    vol ");
            push_decimal(&mut line, app.volume_pct as u64);
            line.append("%    repeat ");
            if app.repeat {
                line.append("on");
            } else {
                line.append("off");
            }
            r.push(line);
        },
    }
    assert(r@.map_values(|s: String| s@) =~= track_info_text(app@));
    r
}

/// The title of the mini player: the state's sign and the track's name.
pub open spec fn mini_title_text(app: crate::state::AppState) -> Seq<char> {
    let name = match app.current_track {
        Some(t) => match path_stem(t) {
            Some(s) => s,
            None => "— no track playing —"@,
        },
        None => "— no track playing —"@,
    };
    " "@ + state_sign(app.play_state) + " "@ + name + " "@
}

/// The title of the mini player.
pub fn mini_player_title(app: &App) -> (r: String)
    ensures
        r@ == mini_title_text(app@),
{
    let name = match &app.current_track {
        Some(t) => match stem_of(t.as_str()) {
            Some(s) => s,
            None => String::from_str("— no track playing —"),
        },
        None => String::from_str("— no track playing —"),
    };
    let mut s = String::from_str(" ");
    match app.play_state {
        PlayState::Playing => s.append("▶"),
        PlayState::Paused => s.append("⏸"),
        PlayState::Stopped => s.append("⏹"),
    }
    s.append(" ");
    s.append(name.as_str());
    s.append(" ");
    s
}

/// The gauge label of the mini player: position and length.
pub open spec fn mini_label_text(app: crate::state::AppState) -> Seq<char> {
    duration_text(app.position_ms) + " / "@ + match app.current_duration_ms {
        Some(d) => duration_text(d),
        None => "--:--"@,
    }
}

/// The gauge label of the mini player.
pub fn mini_player_label(app: &App) -> (r: String)
    ensures
        r@ == mini_label_text(app@),
{
    let mut s = fmt_duration(app.position_ms);
    s.append(" / ");
    match app.current_duration_ms {
        Some(d) => {
            let t = fmt_duration(d);
            s.append(t.as_str());
        },
        None => s.append("--:--"),
    }
    s
}

/// The key help shown on the status line.
pub open spec fn help_text() -> Seq<char> {
    "(<-/->) move | (/) manual search | (Enter) play | (space) pause | (n/p) next/prev | (s) stop | (+/-) vol | (r) repeat | (1/2) or (Tab) view | (q) exit"@
}

/// The status line: the help, after the status message when there is one.
pub open spec fn status_text(status: Seq<char>) -> Seq<char> {
    if status.len() == 0 {
        help_text()
    } else {
        status + "   |   "@ + help_text()
    }
}

/// The status line.
pub fn status_line(app: &App) -> (r: String)
    ensures
        r@ == status_text(app@.status),
{
    let help = "(<-/->) move | (/) manual search | (Enter) play | (space) pause | (n/p) next/prev | (s) stop | (+/-) vol | (r) repeat | (1/2) or (Tab) view | (q) exit";
    if app.status.as_str().is_empty() {
        String::from_str(help)
    } else {
        let mut s = app.status.clone();
        s.append("   |   ");
        s.append(help);
        s
    }
}

/// What the art pane says when it shows no art: that nothing plays, that
/// the renderer is missing, or that the track has no cover.
pub open spec fn art_placeholder_text(app: crate::state::AppState) -> Seq<char> {
    if app.current_track is None {
        "Nothing playing"@
    } else if app.art@.chafa_missing {
        "chafa not installed.\nsudo apt install chafa"@
    } else {
        "(no embedded cover art)"@
    }
}

/// The message of the art pane when no art is shown.
pub fn art_placeholder(app: &App) -> (r: String)
    ensures
        r@ == art_placeholder_text(app@),
{
    if app.current_track.is_none() {
        String::from_str("Nothing playing")
    } else if app.art.renderer_missing() {
        String::from_str("chafa not installed.\nsudo apt install chafa")
    } else {
        String::from_str("(no embedded cover art)")
    }
}

} // verus!
