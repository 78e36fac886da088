use projectpad::notes::{
    is_click_or_tap, link_at_offset, note_cursor, note_event_action, render_note, LinkInfo,
    PointerEventKind,
};
use projectpad::resolve::{Action, CursorKind};

fn spans() -> Vec<LinkInfo> {
    vec![
        LinkInfo { start_offset: 0, end_offset: 5, url: "secret-scheme://p1".to_string() },
        LinkInfo { start_offset: 10, end_offset: 14, url: "https://x".to_string() },
    ]
}

fn click(links: &Vec<LinkInfo>, offset: i32) -> Action {
    note_event_action(links, PointerEventKind::ButtonRelease, Some(1), Some(offset))
}

#[test]
fn span_offset_round_trip() {
    let links = spans();
    assert_eq!(note_cursor(&links, Some(3)), CursorKind::Pointer);
    assert_eq!(click(&links, 12), Action::OpenLink("https://x".to_string()));
    assert_eq!(click(&links, 7), Action::Nothing);
}

#[test]
fn span_end_is_excluded() {
    let links = spans();
    assert_eq!(note_cursor(&links, Some(5)), CursorKind::Text);
    assert_eq!(note_cursor(&links, Some(13)), CursorKind::Pointer);
    assert_eq!(note_cursor(&links, Some(14)), CursorKind::Text);
    assert_eq!(note_cursor(&links, None), CursorKind::Text);
    assert_eq!(link_at_offset(&links, 10), Some(1));
    assert_eq!(link_at_offset(&links, 9), None);
}

#[test]
fn only_release_or_tap_follows_a_link() {
    let links = spans();
    assert!(is_click_or_tap(PointerEventKind::ButtonRelease, Some(1)));
    assert!(is_click_or_tap(PointerEventKind::TouchEnd, None));
    assert!(!is_click_or_tap(PointerEventKind::ButtonRelease, Some(3)));
    assert!(!is_click_or_tap(PointerEventKind::ButtonPress, Some(1)));
    assert_eq!(
        note_event_action(&links, PointerEventKind::ButtonPress, Some(1), Some(12)),
        Action::Nothing
    );
    assert_eq!(
        note_event_action(&links, PointerEventKind::TouchEnd, None, Some(12)),
        Action::OpenLink("https://x".to_string())
    );
    assert_eq!(
        note_event_action(&links, PointerEventKind::ButtonRelease, Some(1), None),
        Action::Nothing
    );
}

#[test]
fn secret_span_reveals_in_place() {
    let links = vec![LinkInfo { start_offset: 2, end_offset: 6, url: "pass://p1".to_string() }];
    assert_eq!(click(&links, 2), Action::RevealSecret("p1".to_string()));
}

#[test]
fn render_links_by_output_offset() {
    let note = render_note("see [docs](https://d.example) and [pw](pass://abc)!");
    assert_eq!(note.text, "see docs and pw!");
    assert_eq!(
        note.links,
        vec![
            LinkInfo { start_offset: 4, end_offset: 8, url: "https://d.example".to_string() },
            LinkInfo { start_offset: 13, end_offset: 15, url: "pass://abc".to_string() },
        ]
    );
    assert_eq!(click(&note.links, 14), Action::RevealSecret("abc".to_string()));
}

#[test]
fn render_keeps_unfinished_markup() {
    let note = render_note("a [b] c [d](e");
    assert_eq!(note.text, "a [b] c [d](e");
    assert!(note.links.is_empty());
}

#[test]
fn render_counts_characters_not_bytes() {
    let note = render_note("é [x](u)");
    assert_eq!(note.text, "é x");
    assert_eq!(note.links[0].start_offset, 2);
    assert_eq!(note.links[0].end_offset, 3);
}

#[test]
fn render_empty_label_and_empty_note() {
    let note = render_note("[](u)");
    assert_eq!(note.text, "");
    assert_eq!(
        note.links,
        vec![LinkInfo { start_offset: 0, end_offset: 0, url: "u".to_string() }]
    );
    let empty = render_note("");
    assert_eq!(empty.text, "");
    assert!(empty.links.is_empty());
}
