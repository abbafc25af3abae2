use fuskyom::app::App;
use fuskyom::library::Entry;
use fuskyom::state::{Effect, KeyCode, KeyEvent, PlayState, PlayerCommand, PlayerEvent, View};

fn item(path: &str, name: &str, is_dir: bool) -> Entry {
    Entry { path: path.to_string(), name: name.to_string(), is_dir }
}

fn key(code: KeyCode) -> KeyEvent {
    KeyEvent { code, ctrl: false }
}

fn ch(c: char) -> KeyEvent {
    key(KeyCode::Char(c))
}

fn sample() -> App {
    App::new(
        "/music".to_string(),
        vec![
            item("/music/Jazz", "Jazz", true),
            item("/music/rock", "rock", true),
            item("/music/Blue Rock.mp3", "Blue Rock.mp3", false),
            item("/music/calm.flac", "calm.flac", false),
        ],
    )
}

fn queued(repeat: bool) -> App {
    let mut app = App::new("/m".to_string(), Vec::new());
    app.repeat = repeat;
    let _ = app.start_queue(
        vec!["/m/a.mp3".to_string(), "/m/b.mp3".to_string(), "/m/c.mp3".to_string()],
        "/m/a.mp3",
    );
    app
}

fn played(e: &Effect) -> Option<String> {
    match e {
        Effect::Player(PlayerCommand::Play(p)) => Some(p.clone()),
        _ => None,
    }
}

#[test]
fn new_app_starts_in_the_browser() {
    let app = sample();
    assert_eq!(app.cwd, "/music");
    assert_eq!(app.selected, 0);
    assert_eq!(app.view, View::Browser);
    assert!(!app.should_quit && !app.search_active && app.search_query.is_empty());
    assert!(app.queue.is_empty() && app.queue_pos.is_none());
    assert_eq!(app.play_state, PlayState::Stopped);
    assert_eq!(app.volume_pct, 100);
    assert_eq!(app.status, "Welcome to FUSKYOM — h keys help below");
    assert_eq!(app.visible_entries().len(), 4);
}

#[test]
fn search_folds_case_beyond_ascii() {
    let mut app = App::new(
        "/m".to_string(),
        vec![item("/m/Élan.mp3", "Élan.mp3", false), item("/m/elan.mp3", "elan.mp3", false)],
    );
    app.search_query = "éL".to_string();
    let shown: Vec<&str> = app.visible_entries().iter().map(|e| e.name.as_str()).collect();
    assert_eq!(shown, vec!["Élan.mp3"]);
}

#[test]
fn search_filters_case_insensitively() {
    let mut app = sample();
    app.search_query = "ROCK".to_string();
    let shown: Vec<&str> = app.visible_entries().iter().map(|e| e.name.as_str()).collect();
    assert_eq!(shown, vec!["rock", "Blue Rock.mp3"]);
    app.search_query = "xyz".to_string();
    assert!(app.visible_entries().is_empty());
    assert!(app.selected_entry().is_none());
}

#[test]
fn selection_moves_and_stops_at_the_ends() {
    let mut app = sample();
    app.move_selection(1);
    assert_eq!(app.selected, 1);
    app.move_selection(10);
    assert_eq!(app.selected, 3);
    app.move_selection(-10);
    assert_eq!(app.selected, 0);
    let _ = app.handle_key(key(KeyCode::PageDown));
    assert_eq!(app.selected, 3);
    let _ = app.handle_key(ch('k'));
    assert_eq!(app.selected, 2);
    let _ = app.handle_key(key(KeyCode::Up));
    let _ = app.handle_key(ch('j'));
    assert_eq!(app.selected, 2);
    assert_eq!(app.selected_entry().unwrap().name, "Blue Rock.mp3");
    let mut empty = App::new("/e".to_string(), Vec::new());
    empty.move_selection(5);
    assert_eq!(empty.selected, 0);
}

#[test]
fn slash_twice_leaves_search_cleanly() {
    let mut app = sample();
    app.selected = 2;
    assert!(matches!(app.handle_key(ch('/')), Effect::Idle));
    assert!(app.search_active);
    assert_eq!(app.selected, 0);
    let _ = app.handle_key(ch('r'));
    assert_eq!(app.search_query, "r");
    assert!(!app.repeat, "typing must not toggle repeat");
    assert!(matches!(app.handle_key(ch('/')), Effect::Idle));
    assert!(!app.search_active);
    assert!(app.search_query.is_empty());
    assert_eq!(app.visible_entries().len(), 4);
}

#[test]
fn typing_builds_the_query_and_keeps_the_selection_in_range() {
    let mut app = sample();
    app.toggle_search();
    let _ = app.handle_key(key(KeyCode::Down));
    let _ = app.handle_key(key(KeyCode::Down));
    let _ = app.handle_key(key(KeyCode::Down));
    assert_eq!(app.selected, 3);
    for c in "roc".chars() {
        assert!(matches!(app.handle_key(ch(c)), Effect::Idle));
    }
    assert_eq!(app.search_query, "roc");
    assert_eq!(app.selected, 1);
    let _ = app.handle_key(ch('q'));
    assert!(!app.should_quit);
    assert_eq!(app.selected, 0);
    let _ = app.handle_key(key(KeyCode::Backspace));
    assert_eq!(app.search_query, "roc");
    let _ = app.handle_key(key(KeyCode::Esc));
    assert!(!app.search_active && app.search_query.is_empty());
    let _ = app.handle_key(key(KeyCode::Backspace));
    assert_eq!(app.cwd, "/", "backspace outside search goes up");
}

#[test]
fn enter_in_search_opens_the_match_and_leaves_the_box() {
    let mut app = sample();
    app.toggle_search();
    for c in "jaz".chars() {
        let _ = app.handle_key(ch(c));
    }
    match app.handle_key(key(KeyCode::Enter)) {
        Effect::LoadDir(d) => assert_eq!(d, "/music/Jazz"),
        other => panic!("unexpected {other:?}"),
    }
    assert!(!app.search_active);
    assert_eq!(app.cwd, "/music/Jazz");
    app.refresh_entries(vec![item("/music/Jazz/x.mp3", "x.mp3", false)]);
    assert!(app.search_query.is_empty());
    assert_eq!(app.selected, 0);
    assert_eq!(app.visible_entries().len(), 1);
}

#[test]
fn enter_on_a_file_queues_its_folder() {
    let mut app = sample();
    app.selected = 3;
    match app.enter_or_play() {
        Effect::LoadQueue { dir, track } => {
            assert_eq!(dir, "/music");
            assert_eq!(track, "/music/calm.flac");
        }
        other => panic!("unexpected {other:?}"),
    }
    let e = app.start_queue(
        vec!["/music/Blue Rock.mp3".to_string(), "/music/calm.flac".to_string()],
        "/music/calm.flac",
    );
    assert_eq!(played(&e).as_deref(), Some("/music/calm.flac"));
    assert_eq!(app.queue_pos, Some(1));
    assert_eq!(app.view, View::NowPlaying);
}

#[test]
fn a_track_missing_from_the_folder_starts_at_the_top() {
    let mut app = sample();
    let e = app.start_queue(vec!["/music/a.mp3".to_string()], "/music/gone.mp3");
    assert_eq!(played(&e).as_deref(), Some("/music/a.mp3"));
    assert_eq!(app.queue_pos, Some(0));
    let mut none = sample();
    assert!(matches!(none.start_queue(Vec::new(), "/music/x.mp3"), Effect::Idle));
    assert_eq!(none.queue_pos, Some(0));
    assert_eq!(none.view, View::Browser);
}

#[test]
fn going_up_needs_a_parent() {
    let mut app = sample();
    match app.go_up() {
        Effect::LoadDir(d) => assert_eq!(d, "/"),
        other => panic!("unexpected {other:?}"),
    }
    assert_eq!(app.cwd, "/");
    assert!(matches!(app.go_up(), Effect::Idle));
    assert_eq!(app.cwd, "/");
}

#[test]
fn next_and_previous_walk_the_queue() {
    let mut app = queued(false);
    assert_eq!(app.queue_pos, Some(0));
    assert!(matches!(app.prev_track(), Effect::Idle));
    assert_eq!(played(&app.next_track()).as_deref(), Some("/m/b.mp3"));
    assert_eq!(played(&app.prev_track()).as_deref(), Some("/m/a.mp3"));
    assert_eq!(app.queue_pos, Some(0));
    let _ = app.handle_key(ch('n'));
    let _ = app.handle_key(ch('n'));
    assert_eq!(app.queue_pos, Some(2));
    let _ = app.on_player_event(PlayerEvent::Started { path: "/m/c.mp3".to_string(), duration_ms: None });
    assert!(matches!(app.next_track(), Effect::Player(PlayerCommand::Stop)));
    assert_eq!(app.status, "Queue end");
    assert_eq!(app.play_state, PlayState::Stopped);
    assert!(app.current_track.is_none());
    assert_eq!(app.position_ms, 0);
}

#[test]
fn repeat_wraps_to_the_first_track() {
    let mut app = queued(false);
    let _ = app.handle_key(ch('r'));
    assert!(app.repeat);
    assert_eq!(app.status, "Repeat: on");
    app.queue_pos = Some(2);
    assert_eq!(played(&app.on_player_event(PlayerEvent::Finished)).as_deref(), Some("/m/a.mp3"));
    assert_eq!(app.queue_pos, Some(0));
    let _ = app.handle_key(ch('r'));
    assert_eq!(app.status, "Repeat: off");
}

#[test]
fn no_queue_means_no_track_change() {
    let mut app = sample();
    assert!(matches!(app.next_track(), Effect::Idle));
    assert!(matches!(app.prev_track(), Effect::Idle));
}

#[test]
fn volume_stays_within_bounds() {
    let mut app = sample();
    assert!(matches!(app.handle_key(ch('+')), Effect::Player(PlayerCommand::SetVolume(105))));
    assert_eq!(app.status, "Volume: 105%");
    for _ in 0..40 {
        let _ = app.handle_key(ch('='));
    }
    assert_eq!(app.volume_pct, 200);
    assert_eq!(app.status, "Volume: 200%");
    for _ in 0..50 {
        let _ = app.handle_key(ch('-'));
    }
    assert_eq!(app.volume_pct, 0);
    assert_eq!(app.status, "Volume: 0%");
    assert!(matches!(app.adjust_volume(i32::MIN), Effect::Player(PlayerCommand::SetVolume(0))));
    assert!(matches!(app.adjust_volume(i32::MAX), Effect::Player(PlayerCommand::SetVolume(200))));
}

#[test]
fn pause_and_seek_need_a_track() {
    let mut app = sample();
    assert!(matches!(app.handle_key(ch(' ')), Effect::Idle));
    assert!(matches!(app.handle_key(ch('.')), Effect::Idle));
    let _ = app.on_player_event(PlayerEvent::Started { path: "/m/x.mp3".to_string(), duration_ms: Some(1000) });
    assert!(matches!(app.handle_key(ch(' ')), Effect::Player(PlayerCommand::TogglePause)));
    assert!(matches!(app.handle_key(ch('.')), Effect::Player(PlayerCommand::SeekBy(5))));
    assert!(matches!(app.handle_key(ch(',')), Effect::Player(PlayerCommand::SeekBy(-5))));
    assert!(matches!(app.handle_key(ch('s')), Effect::Player(PlayerCommand::Stop)));
    assert!(app.current_track.is_none());
}

#[test]
fn player_events_update_the_state() {
    let mut app = sample();
    let _ = app.on_player_event(PlayerEvent::Started { path: "/m/x.mp3".to_string(), duration_ms: Some(9000) });
    assert_eq!(app.current_track.as_deref(), Some("/m/x.mp3"));
    assert_eq!(app.current_duration_ms, Some(9000));
    assert_eq!(app.play_state, PlayState::Playing);
    let _ = app.on_player_event(PlayerEvent::Position(4200));
    assert_eq!(app.position_ms, 4200);
    let _ = app.on_player_event(PlayerEvent::Paused(true));
    assert_eq!(app.play_state, PlayState::Paused);
    let _ = app.on_player_event(PlayerEvent::Paused(false));
    assert_eq!(app.play_state, PlayState::Playing);
    let _ = app.on_player_event(PlayerEvent::Started { path: "/m/y.mp3".to_string(), duration_ms: None });
    assert_eq!(app.position_ms, 0);
    assert_eq!(app.current_duration_ms, None);
    let _ = app.on_player_event(PlayerEvent::Error("decoder failed".to_string()));
    assert_eq!(app.status, "Error: decoder failed");
}

#[test]
fn quitting_and_switching_screens() {
    let mut app = sample();
    let _ = app.handle_key(ch('c'));
    assert!(!app.should_quit);
    let _ = app.handle_key(KeyEvent { code: KeyCode::Char('c'), ctrl: true });
    assert!(app.should_quit);
    let mut app = sample();
    let _ = app.handle_key(ch('q'));
    assert!(app.should_quit);
    let mut app = sample();
    let _ = app.handle_key(key(KeyCode::Tab));
    assert_eq!(app.view, View::NowPlaying);
    let _ = app.handle_key(key(KeyCode::Tab));
    assert_eq!(app.view, View::Browser);
    let _ = app.handle_key(ch('2'));
    assert_eq!(app.view, View::NowPlaying);
    let _ = app.handle_key(ch('1'));
    assert_eq!(app.view, View::Browser);
    assert!(matches!(app.handle_key(key(KeyCode::Other)), Effect::Idle));
}

#[test]
fn left_and_right_depend_on_the_screen() {
    let mut app = queued(false);
    let _ = app.handle_key(ch('1'));
    match app.handle_key(ch('h')) {
        Effect::LoadDir(d) => assert_eq!(d, "/"),
        other => panic!("unexpected {other:?}"),
    }
    let mut app = queued(false);
    assert_eq!(app.view, View::NowPlaying);
    assert_eq!(played(&app.handle_key(key(KeyCode::Right))).as_deref(), Some("/m/b.mp3"));
    assert_eq!(played(&app.handle_key(key(KeyCode::Left))).as_deref(), Some("/m/a.mp3"));
    let mut app = sample();
    app.selected = 1;
    match app.handle_key(ch('l')) {
        Effect::LoadDir(d) => assert_eq!(d, "/music/rock"),
        other => panic!("unexpected {other:?}"),
    }
}

#[test]
fn the_queue_finds_the_track_however_its_path_is_spelled() {
    let mut app = App::new("/music//".to_string(), Vec::new());
    let e = app.start_queue(
        vec!["/music/x.mp3".to_string(), "/music/a.mp3".to_string()],
        "/music//a.mp3",
    );
    assert_eq!(app.queue_pos, Some(1));
    assert_eq!(played(&e).as_deref(), Some("/music/a.mp3"));
    let e = app.start_queue(
        vec!["/music/x.mp3".to_string(), "/music/a.mp3".to_string()],
        "/music/./a.mp3",
    );
    assert_eq!(app.queue_pos, Some(1));
    assert_eq!(played(&e).as_deref(), Some("/music/a.mp3"));
}
