//! Properties of the player that hold across operations, proved on the
//! abstract state that the operations' contracts speak of.

use vstd::prelude::*;
use vstd::view::View as _;
use ratatui::text::Text;
use crate::art::{answers_first, first_answer, lemma_first_answer, ArtLookup, ArtOutcomeView, ArtState, lemma_finish_answers, outcome_art};
use crate::library::{
    Entry, arranged, audio_path, is_hidden, keyed, listed_dir, listed_file, name_key,
    stable_sort_of,
};
use crate::paths::{path_parent, path_same};
use crate::ui::art_column_width;
use crate::text::{decimal, lowercase};
use crate::state::{
    View, AppState, CommandView, EventView, EffectView, KeyCode, KeyEvent, PlayState, VOLUME_MAX, first_at,
    query_matches, start_index,
};

verus! {

broadcast use vstd::seq_lib::group_seq_properties;

/// A filter whose predicate holds of every element keeps the sequence.
proof fn lemma_filter_all<A>(s: Seq<A>, p: spec_fn(A) -> bool)
    requires
        forall|i: int| 0 <= i < s.len() ==> p(#[trigger] s[i]),
    ensures
        s.filter(p) == s,
    decreases s.len(),
{
    reveal(Seq::filter);
    if s.len() > 0 {
        lemma_filter_all(s.drop_last(), p);
        assert(s.drop_last().push(s.last()) =~= s);
    }
}

/// With no query typed, the browser shows the whole listing.
pub proof fn lemma_empty_query_shows_all(s: AppState)
    requires
        s.search_query.len() == 0,
    ensures
        s.visible() == s.entries,
{
    lemma_filter_all(s.entries, query_matches(s.search_query));
}

/// Closing the search box restores the full listing, with the selection at its top.
pub proof fn lemma_close_search_restores_list(s: AppState)
    ensures
        s.close_search().visible() == s.entries,
        s.close_search().selected == 0,
        !s.close_search().search_active,
{
    lemma_empty_query_shows_all(s.close_search());
}

/// Toggling the search box twice leaves it as it was, with an empty query
/// and the selection at the top.
pub proof fn lemma_toggle_search_twice(s: AppState)
    ensures
        s.toggle_search().toggle_search().search_active == s.search_active,
        s.toggle_search().toggle_search().search_query.len() == 0,
        s.toggle_search().toggle_search().selected == 0,
        s.toggle_search().toggle_search().entries == s.entries,
{
}

/// Pressing "/" opens the search box, and pressing it a second time gets
/// out of it cleanly: closed, query cleared, nothing else done.
pub proof fn lemma_slash_twice_closes_search(s: AppState, k: KeyEvent)
    requires
        !s.search_active,
        k.code == KeyCode::Char('/'),
    ensures
        s.handle_key(k).0.search_active,
        s.handle_key(k).0.search_query.len() == 0,
        s.handle_key(k).1 == EffectView::Idle,
        !s.handle_key(k).0.handle_key(k).0.search_active,
        s.handle_key(k).0.handle_key(k).0.search_query.len() == 0,
        s.handle_key(k).0.handle_key(k).0.selected == 0,
        s.handle_key(k).0.handle_key(k).1 == EffectView::Idle,
        s.handle_key(k).0.handle_key(k).0 == (AppState {
            search_active: false,
            search_query: Seq::empty(),
            selected: 0,
            ..s
        }),
{
    assert(s.handle_key(k).0.handle_key(k).0.search_query =~= Seq::<char>::empty());
}

/// While the search box is focused, a typed character (other than "/")
/// extends the query and triggers no playback command: the queue, the
/// track, the playing state, the volume and the screen stay as they were.
pub proof fn lemma_typing_builds_query(s: AppState, k: KeyEvent, c: char)
    requires
        s.search_active,
        k.code == KeyCode::Char(c),
        c != '/',
    ensures
        s.handle_key(k).1 == EffectView::Idle,
        s.handle_key(k).0.search_query == s.search_query.push(c),
        s.handle_key(k).0.search_active,
        s.handle_key(k).0.queue == s.queue,
        s.handle_key(k).0.queue_pos == s.queue_pos,
        s.handle_key(k).0.current_track == s.current_track,
        s.handle_key(k).0.play_state == s.play_state,
        s.handle_key(k).0.volume_pct == s.volume_pct,
        s.handle_key(k).0.repeat == s.repeat,
        s.handle_key(k).0.view == s.view,
        !s.handle_key(k).0.should_quit || s.should_quit,
{
}

/// While the search box is focused, Up and Down still move through the
/// filtered results, and the box stays open.
pub proof fn lemma_search_arrows_navigate(s: AppState, k: KeyEvent)
    requires
        s.search_active,
        k.code == KeyCode::Down || k.code == KeyCode::Up,
    ensures
        s.handle_key(k).0 == s.move_selection(if k.code == KeyCode::Down { 1 } else { -1 }),
        s.handle_key(k).0.search_active,
        s.handle_key(k).0.search_query == s.search_query,
        s.handle_key(k).1 == EffectView::Idle,
{
}

/// The selection points into the visible list (or is 0 when it is empty).
pub open spec fn selection_in_range(s: AppState) -> bool {
    let n = s.visible().len();
    &&& n == 0 ==> s.selected == 0
    &&& n > 0 ==> s.selected < n
}

/// A fresh listing is shown with the selection in range.
pub proof fn lemma_refresh_selection_in_range(s: AppState, entries: Seq<Entry>)
    ensures
        selection_in_range(s.refresh_entries(entries)),
{
}

/// Moves keep the selection inside the visible list.
proof fn lemma_move_in_range(s: AppState, delta: int)
    requires
        selection_in_range(s),
    ensures
        selection_in_range(s.move_selection(delta)),
{
}

/// Clamping puts the selection inside the visible list.
proof fn lemma_clamp_in_range(s: AppState)
    ensures
        selection_in_range(s.clamp_selection()),
{
}

/// Every operation that leaves the listing, the query and the selection
/// alone keeps the selection in range.
proof fn lemma_same_list(s: AppState, t: AppState)
    requires
        selection_in_range(s),
        t.entries == s.entries,
        t.search_query == s.search_query,
        t.selected == s.selected,
    ensures
        selection_in_range(t),
{
}

proof fn lemma_play_current_keeps_list(s: AppState)
    ensures
        s.play_current().0.entries == s.entries,
        s.play_current().0.search_query == s.search_query,
        s.play_current().0.selected == s.selected,
{
}

proof fn lemma_next_keeps_list(s: AppState)
    ensures
        s.next_track().0.entries == s.entries,
        s.next_track().0.search_query == s.search_query,
        s.next_track().0.selected == s.selected,
{
    match s.queue_pos {
        Some(pos) => {
            lemma_play_current_keeps_list(AppState { queue_pos: Some((pos + 1) as usize), ..s });
            lemma_play_current_keeps_list(AppState { queue_pos: Some(0), ..s });
        },
        None => {},
    }
}

proof fn lemma_prev_keeps_list(s: AppState)
    ensures
        s.prev_track().0.entries == s.entries,
        s.prev_track().0.search_query == s.search_query,
        s.prev_track().0.selected == s.selected,
{
    match s.queue_pos {
        Some(pos) => {
            lemma_play_current_keeps_list(AppState { queue_pos: Some((pos - 1) as usize), ..s });
        },
        None => {},
    }
}

/// Whatever key is pressed, a selection that pointed into the visible list
/// still does.
pub proof fn lemma_keys_keep_selection_in_range(s: AppState, k: KeyEvent)
    requires
        selection_in_range(s),
    ensures
        selection_in_range(s.handle_key(k).0),
{
    let t = s.handle_key(k).0;
    lemma_next_keeps_list(s);
    lemma_prev_keeps_list(s);
    lemma_move_in_range(s, 1);
    lemma_move_in_range(s, -1);
    lemma_move_in_range(s, 10);
    lemma_move_in_range(s, -10);
    lemma_close_search_restores_list(s);
    if s.search_active {
        match k.code {
            KeyCode::Backspace => {
                lemma_clamp_in_range(
                    AppState {
                        search_query: if s.search_query.len() > 0 {
                            s.search_query.drop_last()
                        } else {
                            s.search_query
                        },
                        ..s
                    },
                );
            },
            KeyCode::Char(c) => {
                lemma_clamp_in_range(AppState { search_query: s.search_query.push(c), ..s });
            },
            _ => {},
        }
    } else {
        lemma_empty_query_shows_all(s.toggle_search());
    }
    lemma_same_list(s, AppState { search_active: false, ..s });
}

/// Reports of the audio thread never move the browser's selection.
pub proof fn lemma_events_keep_selection(s: AppState, e: crate::state::EventView)
    ensures
        s.on_player_event(e).0.entries == s.entries,
        s.on_player_event(e).0.search_query == s.search_query,
        s.on_player_event(e).0.selected == s.selected,
{
    lemma_next_keeps_list(s);
}

/// Going to the next track and back returns to the same queue position and
/// plays it again.
pub proof fn lemma_next_then_prev(s: AppState, pos: usize)
    requires
        s.queue_pos == Some(pos),
        pos + 1 < s.queue.len(),
        s.queue.len() <= usize::MAX,
    ensures
        s.next_track().0.prev_track().0.queue_pos == Some(pos),
        s.next_track().0.prev_track().1 == EffectView::Player(CommandView::Play(s.queue[pos as int])),
{
    let t = AppState { queue_pos: Some((pos + 1) as usize), ..s };
    assert(s.next_track() == t.play_current());
    let u = t.play_current().0;
    assert(u.queue_pos == Some((pos + 1) as usize));
    assert(u.queue == s.queue);
    let w = AppState { queue_pos: Some(pos), ..u };
    assert(u.prev_track() == w.play_current());
}

/// At the first queue item, "previous" does nothing.
pub proof fn lemma_prev_at_first(s: AppState)
    requires
        s.queue_pos == Some(0usize),
    ensures
        s.prev_track() == (s, EffectView::Idle),
{
}

/// At the last queue item, "next" wraps to the first item when repeat is
/// on, and otherwise stops playback with the status "Queue end".
pub proof fn lemma_end_of_queue(s: AppState, pos: usize)
    requires
        s.queue_pos == Some(pos),
        pos + 1 >= s.queue.len(),
    ensures
        s.repeat && s.queue.len() > 0 ==> s.next_track().0.queue_pos == Some(0usize)
            && s.next_track().1 == EffectView::Player(CommandView::Play(s.queue[0])),
        !(s.repeat && s.queue.len() > 0) ==> s.next_track().1 == EffectView::Player(
            CommandView::Stop,
        ) && s.next_track().0.play_state == PlayState::Stopped
            && s.next_track().0.current_track is None && s.next_track().0.position_ms == 0
            && s.next_track().0.status == "Queue end"@,
{
}

/// A track that finishes is followed exactly as if "next" had been pressed.
pub proof fn lemma_finished_is_next(s: AppState)
    ensures
        s.on_player_event(crate::state::EventView::Finished) == s.next_track(),
{
}

/// The volume never leaves `0 ..= 200`, and the command sent carries the
/// new volume.
pub proof fn lemma_volume_bounded(s: AppState, delta: int)
    ensures
        s.adjust_volume(delta).0.volume_pct <= VOLUME_MAX,
        s.adjust_volume(delta).1 == EffectView::Player(
            CommandView::SetVolume(s.adjust_volume(delta).0.volume_pct),
        ),
{
}

/// Choosing a track that is among the listed files (however its path is
/// spelled) queues the folder and plays the first listed file that is that
/// path.
pub proof fn lemma_queue_starts_at_track(s: AppState, files: Seq<Seq<char>>, track: Seq<char>)
    requires
        exists|i: int| 0 <= i < files.len() && path_same(files[i], track),
        files.len() <= usize::MAX,
    ensures
        s.start_queue(files, track).0.queue == files,
        s.start_queue(files, track).0.queue_pos matches Some(p) && path_same(files[p as int], track)
            && (forall|j: int| 0 <= j < p ==> !path_same(files[j], track))
            && s.start_queue(files, track).1 == EffectView::Player(
            CommandView::Play(files[p as int]),
        ),
{
    let i0 = choose|i: int| 0 <= i < files.len() && path_same(files[i], track);
    lemma_first_occurrence(files, track, i0);
    let i = start_index(files, track);
    assert(first_at(files, track, i));
    assert((i as usize) as int == i);
}

/// If a file at or before `n` is the same path as `track`, a first one exists.
proof fn lemma_first_occurrence(files: Seq<Seq<char>>, track: Seq<char>, n: int)
    requires
        0 <= n < files.len(),
        path_same(files[n], track),
    ensures
        exists|i: int| first_at(files, track, i),
    decreases n,
{
    if exists|j: int| 0 <= j < n && path_same(files[j], track) {
        let j = choose|j: int| 0 <= j < n && path_same(files[j], track);
        lemma_first_occurrence(files, track, j);
    } else {
        assert(first_at(files, track, n));
    }
}

/// When a file starts playing, its position starts at zero and the player
/// shows it as playing.
pub proof fn lemma_started_resets_position(s: AppState, path: Seq<char>, d: Option<u64>)
    ensures
        ({
            let t = s.on_player_event(
                crate::state::EventView::Started { path, duration_ms: d },
            ).0;
            t.position_ms == 0 && t.play_state == PlayState::Playing && t.current_track == Some(
                path,
            ) && t.current_duration_ms == d
        }),
{
}

/// The art cache gives back what was recorded for a key; any other request
/// either answers as before or (when it names the same path at the same
/// size) gets the new art; requests of another size answer as before; and
/// an empty pane shows nothing.
pub proof fn lemma_art_read_after_write(
    a: ArtState,
    path: Seq<char>,
    width: u16,
    height: u16,
    outcome: ArtOutcomeView,
    art: Option<Text<'static>>,
    other_path: Seq<char>,
    other_width: u16,
    other_height: u16,
)
    ensures
        width > 0 && height > 0 ==> a.finish(path, width, height, outcome, art).lookup(
            path,
            width,
            height,
        ) == ArtLookup::Ready(art),
        a.finish(path, width, height, outcome, art).lookup(other_path, other_width, other_height)
            == a.lookup(other_path, other_width, other_height) || a.finish(
            path,
            width,
            height,
            outcome,
            art,
        ).lookup(other_path, other_width, other_height) == ArtLookup::Ready(art),
        (other_width, other_height) != (width, height) ==> a.finish(
            path,
            width,
            height,
            outcome,
            art,
        ).lookup(other_path, other_width, other_height) == a.lookup(
            other_path,
            other_width,
            other_height,
        ),
        a.lookup(path, 0, height) == ArtLookup::Ready(None),
        a.lookup(path, width, 0) == ArtLookup::Ready(None),
{
    lemma_finish_answers(a, path, width, height, outcome, art, (path, width, height));
    lemma_finish_answers(a, path, width, height, outcome, art, (other_path, other_width, other_height));
}

/// A failed render is remembered: the cache answers `None` for that key
/// from then on, so the renderer is not run again for it.
pub proof fn lemma_art_failure_cached(
    a: ArtState,
    path: Seq<char>,
    width: u16,
    height: u16,
    art: Option<Text<'static>>,
)
    requires
        width > 0,
        height > 0,
        art == outcome_art(ArtOutcomeView::RendererFailed),
    ensures
        a.finish(path, width, height, ArtOutcomeView::RendererFailed, art).lookup(
            path,
            width,
            height,
        ) == ArtLookup::Ready(None),
        a.finish(path, width, height, ArtOutcomeView::RendererFailed, art).chafa_missing,
{
    lemma_finish_answers(a, path, width, height, ArtOutcomeView::RendererFailed, art, (path, width, height));
}

/// An element of a filtered sequence is in the sequence and satisfies the filter.
proof fn lemma_filter_member<A>(s: Seq<A>, p: spec_fn(A) -> bool, e: A)
    requires
        s.filter(p).contains(e),
    ensures
        s.contains(e),
        p(e),
{
    s.lemma_filter_contains_rev(p, e);
    let j = choose|j: int| 0 <= j < s.filter(p).len() && s.filter(p)[j] == e;
    s.lemma_filter_pred(p, j);
}

/// Sorting only rearranges: every sorted entry comes from the input.
proof fn lemma_sorted_member(o: Seq<Entry>, inp: Seq<Entry>, i: int)
    requires
        stable_sort_of(o, inp),
        0 <= i < o.len(),
    ensures
        inp.contains(o[i]),
{
    let e = o[i];
    let k = name_key(e);
    o.lemma_filter_contains(keyed(k), i);
    assert(o.filter(keyed(k)) == inp.filter(keyed(k)));
    lemma_filter_member(inp, keyed(k), e);
}

/// The browser's listing holds only items of the directory, never a hidden
/// one; its first part holds the directories and the rest only playable
/// files.
pub proof fn lemma_listing_shape(out: Seq<Entry>, raw: Seq<Entry>)
    requires
        arranged(out, raw),
    ensures
        forall|i: int|
            0 <= i < out.len() ==> raw.contains(#[trigger] out[i]) && !is_hidden(out[i].name@),
        forall|i: int| 0 <= i < raw.filter(listed_dir()).len() ==> (#[trigger] out[i]).is_dir,
        forall|i: int|
            raw.filter(listed_dir()).len() <= i < out.len() ==> !(#[trigger] out[i]).is_dir
                && audio_path(out[i].path@),
{
    let nd = raw.filter(listed_dir()).len() as int;
    let dirs = raw.filter(listed_dir());
    let files = raw.filter(listed_file());
    assert forall|i: int| 0 <= i < out.len() implies raw.contains(#[trigger] out[i]) && !is_hidden(
        out[i].name@,
    ) && (i < nd ==> out[i].is_dir) && (i >= nd ==> !out[i].is_dir && audio_path(out[i].path@)) by {
        if i < nd {
            lemma_sorted_member(out.take(nd), dirs, i);
            assert(out.take(nd)[i] == out[i]);
            lemma_filter_member(raw, listed_dir(), out[i]);
        } else {
            lemma_sorted_member(out.skip(nd), files, i - nd);
            assert(out.skip(nd)[i - nd] == out[i]);
            lemma_filter_member(raw, listed_file(), out[i]);
        }
    }
}

/// The album-art column never collapses below 10 cells, and on a terminal
/// wide enough that 70% of it is at least 15 cells it never takes more than
/// 70% of the width, however tall the pane is.
pub proof fn lemma_art_width_bounds(width: u16, height: u16)
    ensures
        art_column_width(width as int, height as int) >= 10,
        width * 7 / 10 >= 15 ==> art_column_width(width as int, height as int) <= width * 7 / 10,
{
}

/// Once a request is answered from the cache it is answered the same way
/// for good: recording the outcome of a render that was missing changes no
/// answer already given. Since requests themselves change nothing, each
/// file at each size is rendered at most once.
pub proof fn lemma_ready_answers_persist(
    a: ArtState,
    path: Seq<char>,
    width: u16,
    height: u16,
    outcome: ArtOutcomeView,
    art: Option<Text<'static>>,
    other_path: Seq<char>,
    other_width: u16,
    other_height: u16,
)
    requires
        a.lookup(path, width, height) == ArtLookup::Missing,
        a.lookup(other_path, other_width, other_height) is Ready,
    ensures
        a.finish(path, width, height, outcome, art).lookup(other_path, other_width, other_height)
            == a.lookup(other_path, other_width, other_height),
{
    let e = a.entries;
    let k = (path, width, height);
    let q = (other_path, other_width, other_height);
    let f = a.finish(path, width, height, outcome, art).entries;
    assert(first_answer(e, k) is None);
    assert(f == e.push((k, art)));
    if other_width != 0 && other_height != 0 {
        let j = first_answer(e, q)->0;
        assert(answers_first(e, q, j));
        assert(answers_first(f, q, j));
        lemma_first_answer(f, q, j);
    }
}

/// The browser's search rule, written out: an entry's name contains the
/// query when the query is empty, or when the lower-cased query occurs as a
/// run of characters in the lower-cased name.
pub open spec fn name_contains_query(name: Seq<char>, q: Seq<char>) -> bool {
    q.len() == 0 || exists|i: int|
        0 <= i && i + lowercase(q).len() <= lowercase(name).len() && #[trigger] lowercase(
            name,
        ).subrange(i, i + lowercase(q).len()) == lowercase(q)
}

/// The browser shows, in listing order, exactly the entries whose name
/// (not their path) contains the query, ignoring case.
pub proof fn lemma_visible_is_name_search(s: AppState)
    ensures
        s.visible() == s.entries.filter(|e: Entry| name_contains_query(e.name@, s.search_query)),
        forall|e: Entry|
            #[trigger] s.visible().contains(e) <==> s.entries.contains(e) && name_contains_query(
                e.name@,
                s.search_query,
            ),
{
    let q = s.search_query;
    let f = |e: Entry| name_contains_query(e.name@, q);
    assert(query_matches(q) =~= f);
    assert forall|e: Entry| #[trigger] s.visible().contains(e) <==> s.entries.contains(e) && f(e) by {
        if s.visible().contains(e) {
            lemma_filter_member(s.entries, f, e);
        }
        if s.entries.contains(e) && f(e) {
            let i = choose|i: int| 0 <= i < s.entries.len() && s.entries[i] == e;
            s.entries.lemma_filter_contains(f, i);
        }
    }
}

/// The selected entry is the entry at the selection's index in the
/// filtered listing (the entries whose name contains the query), not in
/// the full listing; past its end nothing is selected.
pub proof fn lemma_selected_entry_is_in_filtered_list(s: AppState)
    ensures
        ({
            let shown = s.entries.filter(|e: Entry| name_contains_query(e.name@, s.search_query));
            &&& s.selected < shown.len() ==> s.selected_entry() == Some(shown[s.selected as int])
            &&& s.selected >= shown.len() ==> s.selected_entry() is None
        }),
{
    lemma_visible_is_name_search(s);
}

/// Enter opens the selected directory of the filtered listing, or queues
/// the folder of the selected file from that file; with nothing selected
/// it does nothing.
pub proof fn lemma_enter_acts_on_filtered_selection(s: AppState)
    ensures
        ({
            let shown = s.entries.filter(|e: Entry| name_contains_query(e.name@, s.search_query));
            let (t, eff) = s.enter_or_play();
            &&& s.selected < shown.len() && shown[s.selected as int].is_dir ==> t.cwd
                == shown[s.selected as int].path@ && eff == EffectView::LoadDir(
                shown[s.selected as int].path@,
            )
            &&& s.selected < shown.len() && !shown[s.selected as int].is_dir ==> t == s && (
            eff matches EffectView::LoadQueue { dir, track } && track
                == shown[s.selected as int].path@)
            &&& s.selected >= shown.len() ==> t == s && eff == EffectView::Idle
        }),
{
    lemma_selected_entry_is_in_filtered_list(s);
}

/// Pause/resume is sent whenever a track is loaded, whatever the playing
/// state (so a paused track can be resumed); with no track nothing is sent.
/// Space outside the search box does exactly this.
pub proof fn lemma_pause_toggles_loaded_track(s: AppState, k: KeyEvent)
    ensures
        s.current_track is Some ==> s.toggle_pause() == (s, EffectView::Player(CommandView::TogglePause)),
        s.current_track is None ==> s.toggle_pause() == (s, EffectView::Idle),
        !s.search_active && k.code == KeyCode::Char(' ') && s.current_track is Some ==> s.handle_key(
            k,
        ) == (s, EffectView::Player(CommandView::TogglePause)),
        !s.search_active && k.code == KeyCode::Char(' ') && s.current_track is None ==> s.handle_key(
            k,
        ) == (s, EffectView::Idle),
{
}

/// A volume step moves the volume by exactly the step while that stays in
/// `0 ..= 200`, and stops at the nearer bound otherwise; the new volume is
/// sent and shown.
pub proof fn lemma_volume_step(s: AppState, delta: int)
    ensures
        0 <= s.volume_pct + delta <= 200 ==> s.adjust_volume(delta).0.volume_pct == s.volume_pct
            + delta,
        s.volume_pct + delta < 0 ==> s.adjust_volume(delta).0.volume_pct == 0,
        s.volume_pct + delta > 200 ==> s.adjust_volume(delta).0.volume_pct == 200,
        s.adjust_volume(delta).1 == EffectView::Player(
            CommandView::SetVolume(s.adjust_volume(delta).0.volume_pct),
        ),
        s.adjust_volume(delta).0.status == "Volume: "@ + decimal(
            s.adjust_volume(delta).0.volume_pct as nat,
        ) + "%"@,
        s.adjust_volume(delta).0 == (AppState {
            volume_pct: s.adjust_volume(delta).0.volume_pct,
            status: s.adjust_volume(delta).0.status,
            ..s
        }),
{
}

/// Outside the search box, "+" and "=" raise the volume by 5%, "-" lowers
/// it by 5%, "." and "," seek 5 seconds forward and back when a track is
/// loaded.
pub proof fn lemma_volume_and_seek_keys(s: AppState, k: KeyEvent)
    requires
        !s.search_active,
    ensures
        k.code == KeyCode::Char('+') || k.code == KeyCode::Char('=') ==> s.handle_key(k)
            == s.adjust_volume(5),
        k.code == KeyCode::Char('-') ==> s.handle_key(k) == s.adjust_volume(-5),
        k.code == KeyCode::Char('.') ==> s.handle_key(k) == (s, if s.current_track is Some {
            EffectView::Player(CommandView::SeekBy(5i32))
        } else {
            EffectView::Idle
        }),
        k.code == KeyCode::Char(',') ==> s.handle_key(k) == (s, if s.current_track is Some {
            EffectView::Player(CommandView::SeekBy(-5i32))
        } else {
            EffectView::Idle
        }),
{
}

/// Outside the search box, "p" goes to the previous queue item: from
/// position `p > 0` (within the queue) to `p - 1`, playing it on the
/// now-playing screen; otherwise it does nothing.
pub proof fn lemma_p_goes_to_previous(s: AppState, k: KeyEvent)
    requires
        !s.search_active,
        k.code == KeyCode::Char('p'),
    ensures
        ({
            let (t, eff) = s.handle_key(k);
            match s.queue_pos {
                Some(p) => if 0 < p && p - 1 < s.queue.len() {
                    &&& t == (AppState {
                        queue_pos: Some((p - 1) as usize),
                        view: View::NowPlaying,
                        ..s
                    })
                    &&& eff == EffectView::Player(CommandView::Play(s.queue[p - 1]))
                } else if 0 < p {
                    t == (AppState { queue_pos: Some((p - 1) as usize), ..s }) && eff
                        == EffectView::Idle
                } else {
                    t == s && eff == EffectView::Idle
                },
                None => t == s && eff == EffectView::Idle,
            }
        }),
{
}

/// Outside the search box, "n" goes to the next queue item; at the end it
/// wraps to the first when repeating, and otherwise stops playback with
/// the status "Queue end"; with no queue position it does nothing.
pub proof fn lemma_n_goes_to_next(s: AppState, k: KeyEvent)
    requires
        !s.search_active,
        k.code == KeyCode::Char('n'),
        s.queue.len() <= usize::MAX,
    ensures
        ({
            let (t, eff) = s.handle_key(k);
            match s.queue_pos {
                Some(p) => if p + 1 < s.queue.len() {
                    &&& t == (AppState {
                        queue_pos: Some((p + 1) as usize),
                        view: View::NowPlaying,
                        ..s
                    })
                    &&& eff == EffectView::Player(CommandView::Play(s.queue[p + 1]))
                } else if s.repeat && s.queue.len() > 0 {
                    &&& t == (AppState { queue_pos: Some(0), view: View::NowPlaying, ..s })
                    &&& eff == EffectView::Player(CommandView::Play(s.queue[0]))
                } else {
                    &&& t == (AppState {
                        play_state: PlayState::Stopped,
                        current_track: None,
                        position_ms: 0,
                        status: "Queue end"@,
                        ..s
                    })
                    &&& eff == EffectView::Player(CommandView::Stop)
                },
                None => t == s && eff == EffectView::Idle,
            }
        }),
{
}

/// Outside the search box: "q" and Control-C quit, "s" stops and forgets
/// the track, "r" switches repeat, "1" and "2" pick a screen and Tab
/// switches it; none of them touches the queue or the listing otherwise.
pub proof fn lemma_other_keys(s: AppState, k: KeyEvent)
    requires
        !s.search_active,
    ensures
        k.code == KeyCode::Char('q') || (k.code == KeyCode::Char('c') && k.ctrl) ==> s.handle_key(
            k,
        ) == (AppState { should_quit: true, ..s }, EffectView::Idle),
        k.code == KeyCode::Char('c') && !k.ctrl ==> s.handle_key(k) == (s, EffectView::Idle),
        k.code == KeyCode::Char('s') ==> s.handle_key(k) == (
            AppState {
                play_state: PlayState::Stopped,
                current_track: None,
                position_ms: 0,
                ..s
            },
            EffectView::Player(CommandView::Stop),
        ),
        k.code == KeyCode::Char('r') ==> s.handle_key(k).0 == (AppState {
            repeat: !s.repeat,
            status: "Repeat: "@ + (if s.repeat {
                "off"@
            } else {
                "on"@
            }),
            ..s
        }) && s.handle_key(k).1 == EffectView::Idle,
        k.code == KeyCode::Char('1') ==> s.handle_key(k) == (
            AppState { view: View::Browser, ..s },
            EffectView::Idle,
        ),
        k.code == KeyCode::Char('2') ==> s.handle_key(k) == (
            AppState { view: View::NowPlaying, ..s },
            EffectView::Idle,
        ),
        k.code == KeyCode::Tab ==> s.handle_key(k).0.view != s.view && s.handle_key(k).0 == (
        AppState { view: s.handle_key(k).0.view, ..s }) && s.handle_key(k).1 == EffectView::Idle,
{
}

/// Where a move of `delta` puts the selection in a list of `n` entries
/// (`n > 0`): the index moved by `delta`, stopped at the first and the last
/// entry.
pub open spec fn moved_index(selected: usize, delta: int, n: int) -> int {
    let target = (selected as i32) + delta;
    if target < 0 {
        0
    } else if target > n - 1 {
        n - 1
    } else {
        target
    }
}

/// Outside the search box, Down and "j" move the selection one entry down,
/// Up and "k" one up, PageDown and PageUp ten, stopping at the ends of the
/// visible list and changing nothing else; with an empty list they do
/// nothing. In the search box, Down and Up do the same by one.
pub proof fn lemma_move_keys(s: AppState, k: KeyEvent)
    ensures
        ({
            let n = s.visible().len() as int;
            let d: int = match k.code {
                KeyCode::Down => 1,
                KeyCode::Up => -1,
                KeyCode::PageDown => if s.search_active { 0 } else { 10 },
                KeyCode::PageUp => if s.search_active { 0 } else { -10 },
                KeyCode::Char(c) => if !s.search_active && c == 'j' {
                    1
                } else if !s.search_active && c == 'k' {
                    -1
                } else {
                    0
                },
                _ => 0,
            };
            d != 0 ==> s.handle_key(k).1 == EffectView::Idle && if n == 0 {
                s.handle_key(k).0 == s
            } else {
                s.handle_key(k).0 == (AppState { selected: moved_index(s.selected, d, n) as usize, ..s })
            }
        }),
{
}

/// In the search box: Backspace deletes the query's last character (if
/// any) and Esc closes the box; neither sends anything. Enter closes the
/// box and then acts on the selection as Enter does outside it.
pub proof fn lemma_search_box_keys(s: AppState, k: KeyEvent)
    requires
        s.search_active,
    ensures
        k.code == KeyCode::Backspace ==> s.handle_key(k).1 == EffectView::Idle
            && s.handle_key(k).0.search_query == (if s.search_query.len() > 0 {
            s.search_query.drop_last()
        } else {
            s.search_query
        }) && s.handle_key(k).0.search_active && s.handle_key(k).0.entries == s.entries,
        k.code == KeyCode::Esc ==> s.handle_key(k) == (
            AppState { search_active: false, search_query: Seq::empty(), selected: 0, ..s },
            EffectView::Idle,
        ),
        k.code == KeyCode::Enter ==> s.handle_key(k) == (AppState {
            search_active: false,
            ..s
        }).enter_or_play(),
{
}

/// Back (Backspace, "h", Left) goes up to the parent directory in the
/// browser and to the previous track on the now-playing screen; forward
/// (Right, "l") goes to the next track on the now-playing screen and opens
/// or plays the selection in the browser.
pub proof fn lemma_back_and_forward(s: AppState, k: KeyEvent)
    requires
        !s.search_active,
    ensures
        (k.code == KeyCode::Backspace || k.code == KeyCode::Left || k.code == KeyCode::Char('h'))
            && s.view == View::Browser ==> s.handle_key(k) == (match path_parent(s.cwd) {
            Some(p) => (AppState { cwd: p, ..s }, EffectView::LoadDir(p)),
            None => (s, EffectView::Idle),
        }),
        (k.code == KeyCode::Backspace || k.code == KeyCode::Left || k.code == KeyCode::Char('h'))
            && s.view == View::NowPlaying ==> s.handle_key(k) == s.prev_track(),
        (k.code == KeyCode::Right || k.code == KeyCode::Char('l')) && s.view == View::NowPlaying
            ==> s.handle_key(k) == s.next_track(),
        (k.code == KeyCode::Right || k.code == KeyCode::Char('l')) && s.view == View::Browser
            ==> s.handle_key(k) == s.enter_or_play(),
        k.code == KeyCode::Enter ==> s.handle_key(k) == s.enter_or_play(),
{
}

/// The audio thread's reports: a position is recorded, a pause or resume
/// sets the playing state, an error is shown on the status line; none of
/// them sends anything.
pub proof fn lemma_player_reports(s: AppState, e: EventView)
    ensures
        e matches EventView::Position(p) ==> s.on_player_event(e) == (
            AppState { position_ms: p, ..s },
            EffectView::Idle,
        ),
        e matches EventView::Paused(b) ==> s.on_player_event(e) == (
            AppState { play_state: if b { PlayState::Paused } else { PlayState::Playing }, ..s },
            EffectView::Idle,
        ),
        e matches EventView::Error(m) ==> s.on_player_event(e) == (
            AppState { status: "Error: "@ + m, ..s },
            EffectView::Idle,
        ),
{
}

/// A new listing is shown whole, from its top, with the search closed;
/// nothing else changes.
pub proof fn lemma_refresh_shows_listing(s: AppState, entries: Seq<Entry>)
    ensures
        s.refresh_entries(entries).visible() == entries,
        s.refresh_entries(entries) == (AppState {
            entries,
            selected: 0,
            search_active: false,
            search_query: Seq::empty(),
            ..s
        }),
{
    lemma_empty_query_shows_all(s.refresh_entries(entries));
}

} // verus!
