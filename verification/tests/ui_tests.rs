use fuskyom::app::App;
use fuskyom::library::Entry;
use fuskyom::state::{PlayState, PlayerEvent};
use fuskyom::ui::{
    art_placeholder, art_width, browser_title, entry_label, fmt_duration, mini_player_label, mini_player_title,
    queue_labels, search_box_text, status_line, track_info_lines, track_name,
};

fn item(path: &str, name: &str, is_dir: bool) -> Entry {
    Entry { path: path.to_string(), name: name.to_string(), is_dir }
}

#[test]
fn durations_are_minutes_and_seconds() {
    assert_eq!(fmt_duration(0), "00:00");
    assert_eq!(fmt_duration(59_999), "00:59");
    assert_eq!(fmt_duration(61_000), "01:01");
    assert_eq!(fmt_duration(3_600_000), "60:00");
    assert_eq!(fmt_duration(6_000_000), "100:00");
    assert_eq!(fmt_duration(754_321), "12:34");
}

#[test]
fn art_column_width_follows_the_pane() {
    assert_eq!(art_width(100, 20), 40);
    assert_eq!(art_width(100, 60), 70);
    assert_eq!(art_width(100, 3), 15);
    assert_eq!(art_width(20, 20), 10);
    assert_eq!(art_width(0, 0), 10);
    assert_eq!(art_width(30, 40), 15);
    assert_eq!(art_width(u16::MAX, u16::MAX), 45874);
}

#[test]
fn browser_rows_and_title() {
    assert_eq!(entry_label(&item("/m/rock", "rock", true)), "📁 rock/");
    assert_eq!(entry_label(&item("/m/a.mp3", "a.mp3", false)), "🎵 a.mp3");
    let mut app = App::new(
        "/m".to_string(),
        vec![item("/m/rock", "rock", true), item("/m/Rocket.mp3", "Rocket.mp3", false), item("/m/pop", "pop", true)],
    );
    assert_eq!(browser_title(&app), " /m ");
    app.search_active = true;
    app.search_query = "ROCK".to_string();
    assert_eq!(browser_title(&app), " /m (2 results) ");
    assert_eq!(search_box_text(&app), "/ROCK");
    app.search_query = "zzz".to_string();
    assert_eq!(browser_title(&app), " /m (0 results) ");
}

#[test]
fn queue_rows_mark_the_position() {
    let mut app = App::new("/m".to_string(), Vec::new());
    let _ = app.start_queue(vec!["/m/a.mp3".to_string(), "/m/b.flac".to_string()], "/m/b.flac");
    assert_eq!(queue_labels(&app), vec!["  a".to_string(), "▶ b".to_string()]);
    assert_eq!(track_name("/x/y/Song.Name.mp3"), "Song.Name");
    assert_eq!(track_name("/"), "");
}

#[test]
fn track_pane_and_mini_player() {
    let mut app = App::new("/m".to_string(), Vec::new());
    assert_eq!(track_info_lines(&app), vec!["No track playing".to_string()]);
    assert_eq!(mini_player_title(&app), " ⏹ — no track playing — ");
    assert_eq!(mini_player_label(&app), "00:00 / --:--");
    let _ = app.on_player_event(PlayerEvent::Started {
        path: "/m/Tune.ogg".to_string(),
        duration_ms: Some(185_000),
    });
    let _ = app.on_player_event(PlayerEvent::Position(65_500));
    assert_eq!(app.play_state, PlayState::Playing);
    assert_eq!(
        track_info_lines(&app),
        vec!["Tune".to_string(), "▶ playing    vol 100%    repeat off".to_string()]
    );
    assert_eq!(mini_player_title(&app), " ▶ Tune ");
    assert_eq!(mini_player_label(&app), "01:05 / 03:05");
    let _ = app.on_player_event(PlayerEvent::Paused(true));
    assert_eq!(mini_player_title(&app), " ⏸ Tune ");
}

#[test]
fn status_line_puts_the_message_before_the_help() {
    let help = "(<-/->) move | (/) manual search | (Enter) play | (space) pause | (n/p) next/prev | (s) stop | (+/-) vol | (r) repeat | (1/2) or (Tab) view | (q) exit";
    let mut app = App::new("/m".to_string(), Vec::new());
    assert_eq!(status_line(&app), format!("Welcome to FUSKYOM — h keys help below   |   {help}"));
    app.status = String::new();
    assert_eq!(status_line(&app), help);
}

#[test]
fn art_pane_messages() {
    let mut app = App::new("/m".to_string(), Vec::new());
    assert_eq!(art_placeholder(&app), "Nothing playing");
    let _ = app.on_player_event(PlayerEvent::Started { path: "/m/a.mp3".to_string(), duration_ms: None });
    assert_eq!(art_placeholder(&app), "(no embedded cover art)");
    app.art.chafa_missing = true;
    assert_eq!(art_placeholder(&app), "chafa not installed.\nsudo apt install chafa");
}
