use fuskyom::art::{cover_from_tags, ArtLookup, ArtOutcome, ArtRenderer};
use ansi_to_tui::IntoText;
use ratatui::style::Color;

#[test]
fn empty_pane_shows_nothing() {
    let art = ArtRenderer::new();
    assert!(matches!(art.render("/m/a.mp3", 0, 10), ArtLookup::Ready(None)));
    assert!(matches!(art.render("/m/a.mp3", 10, 0), ArtLookup::Ready(None)));
    assert!(matches!(art.render("/m/a.mp3", 10, 10), ArtLookup::Missing));
}

#[test]
fn rendered_art_is_cached_per_size() {
    let mut art = ArtRenderer::new();
    let shown = art
        .finish_render("/m/a.mp3", 10, 5, ArtOutcome::Rendered("\u{1b}[31mX\u{1b}[0m".to_string()))
        .expect("parsed art");
    assert_eq!(shown.lines.len(), 1);
    assert_eq!(shown.lines[0].spans[0].content, "X");
    assert_eq!(shown.lines[0].spans[0].style.fg, Some(Color::Red));
    match art.render("/m/a.mp3", 10, 5) {
        ArtLookup::Ready(Some(t)) => assert_eq!(t, shown),
        other => panic!("unexpected {other:?}"),
    }
    assert!(matches!(art.render("/m/a.mp3", 11, 5), ArtLookup::Missing));
    assert!(matches!(art.render("/m/b.mp3", 10, 5), ArtLookup::Missing));
    assert!(!art.chafa_missing);
    let again = art.finish_render("/m/a.mp3", 10, 5, ArtOutcome::NoCover);
    assert!(again.is_none());
    assert!(matches!(art.render("/m/a.mp3", 10, 5), ArtLookup::Ready(None)));
}

#[test]
fn renderer_failure_is_remembered() {
    let mut art = ArtRenderer::new();
    assert!(art.finish_render("/m/a.mp3", 4, 4, ArtOutcome::RendererFailed).is_none());
    assert!(art.chafa_missing);
    assert!(matches!(art.render("/m/a.mp3", 4, 4), ArtLookup::Ready(None)));
    assert!(art.finish_render("/m/b.mp3", 4, 4, ArtOutcome::NoCover).is_none());
    assert!(matches!(art.render("/m/b.mp3", 4, 4), ArtLookup::Ready(None)));
}

#[test]
fn cache_compares_files_as_paths() {
    let mut art = ArtRenderer::new();
    let shown = art.finish_render("/m/a.mp3", 6, 3, ArtOutcome::Rendered("cover".to_string()));
    assert!(shown.is_some());
    match art.render("/m//a.mp3", 6, 3) {
        ArtLookup::Ready(Some(t)) => assert_eq!(Some(t), shown),
        other => panic!("unexpected {other:?}"),
    }
    assert!(matches!(art.render("/m/./a.mp3", 6, 3), ArtLookup::Ready(Some(_))));
    assert!(matches!(art.render("/m/b.mp3", 6, 3), ArtLookup::Missing));
    let _ = art.finish_render("/m//a.mp3", 6, 3, ArtOutcome::NoCover);
    assert!(matches!(art.render("/m/a.mp3", 6, 3), ArtLookup::Ready(None)));
}

#[test]
fn rendered_output_always_gives_art() {
    let mut art = ArtRenderer::new();
    let out = "\u{1b}[99;99;99zoops\n\u{1b}[1;32mok";
    let shown = art.finish_render("/m/a.mp3", 2, 2, ArtOutcome::Rendered(out.to_string()));
    assert_eq!(shown, Some(out.into_text().unwrap()));
    assert_ne!(shown, Some("".into_text().unwrap()));
}

#[test]
fn cover_comes_from_the_primary_tag_first() {
    let a = vec![1u8, 2];
    let b = vec![3u8];
    let c = vec![4u8];
    assert_eq!(cover_from_tags(Some(vec![a.clone(), b.clone()]), Some(vec![c.clone()])), Some(a.clone()));
    assert_eq!(cover_from_tags(None, Some(vec![c.clone(), a.clone()])), Some(c.clone()));
    assert_eq!(cover_from_tags(Some(Vec::new()), Some(vec![c.clone()])), None);
    assert_eq!(cover_from_tags(None, Some(Vec::new())), None);
    assert_eq!(cover_from_tags(None, None), None);
}
