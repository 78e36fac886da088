use projectpad::item::{ItemKind, ItemRef, ProjectPadItem};
use projectpad::models::ServerNote;
use projectpad::paint::{Border, Depth, DrawOp, RowStyle, StyleMetrics, TextExtents};
use projectpad::resolve::{Action, CursorKind};
use projectpad::view::SearchView;

fn metrics() -> StyleMetrics {
    let zero = Border { left: 0, right: 0, top: 0, bottom: 0 };
    StyleMetrics {
        parent_row: RowStyle { padding: zero, margin: zero },
        child_row: RowStyle { padding: zero, margin: zero },
        action_button: zero,
        link_text: zero,
        subtext: zero,
    }
}

fn note(id: i32) -> ProjectPadItem {
    ProjectPadItem::ServerNote(ServerNote {
        id,
        title: "n".to_string(),
        contents: String::new(),
        server_id: 1,
    })
}

fn ext() -> TextExtents {
    TextExtents { title_width: 10, title_height: 10, detail_width: 0, detail_height: 0 }
}

#[test]
fn pressed_state_protocol() {
    let mut view = SearchView::new();
    let items = vec![(note(4), Depth::Parent)];
    view.repaint(&items, &vec![ext()], 800, &metrics());
    // the button of row 0 is at x = 800 - 50 - 150, y = 0, 16 by 16
    assert!(view.pointer_down(605, 5));
    assert_eq!(view.pressed, Some(ItemRef { kind: ItemKind::ServerNote, id: 4 }));
    let (ops, _) = view.repaint(&items, &vec![ext()], 800, &metrics());
    assert!(ops.iter().any(|op| matches!(op, DrawOp::ActionButton { pressed: true, .. })));
    let action = view.pointer_up(605, 5);
    assert_eq!(action, Action::InvokeItemAction(ItemRef { kind: ItemKind::ServerNote, id: 4 }));
    assert_eq!(view.pressed, None);
}

#[test]
fn release_elsewhere_still_clears_pressed() {
    let mut view = SearchView::new();
    let items = vec![(note(4), Depth::Parent)];
    view.repaint(&items, &vec![ext()], 800, &metrics());
    assert!(view.pointer_down(605, 5));
    assert!(!view.pointer_down(605, 6));
    assert_eq!(view.pointer_up(1, 1), Action::Nothing);
    assert_eq!(view.pressed, None);
}

#[test]
fn repaint_replaces_the_previous_table() {
    let mut view = SearchView::new();
    let items = vec![(note(4), Depth::Parent)];
    view.repaint(&items, &vec![ext()], 800, &metrics());
    assert_eq!(view.cursor_at(605, 5), CursorKind::Pointer);
    view.repaint(&items, &vec![ext()], 400, &metrics());
    // the old button area no longer acts; the new one does
    assert_eq!(view.pointer_up(605, 5), Action::Nothing);
    assert_eq!(view.cursor_at(605, 5), CursorKind::Text);
    assert_eq!(
        view.pointer_up(205, 5),
        Action::InvokeItemAction(ItemRef { kind: ItemKind::ServerNote, id: 4 })
    );
}

#[test]
fn unpainted_view_has_nothing_to_click() {
    let mut view = SearchView::new();
    assert!(!view.pointer_down(0, 0));
    assert_eq!(view.pointer_up(0, 0), Action::Nothing);
}
