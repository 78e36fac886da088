use projectpad::geometry::Area;
use projectpad::item::{ItemKind, ItemRef};
use projectpad::paint::RegionTable;
use projectpad::resolve::{hover_cursor, link_action_of, resolve, Action, CursorKind};

fn table() -> RegionTable {
    RegionTable {
        links: vec![
            (Area::new(10, 10, 100, 20), "https://example.com".to_string()),
            (Area::new(50, 15, 100, 20), "pass://hunter2".to_string()),
        ],
        action_buttons: vec![
            (Area::new(0, 0, 30, 30), ItemRef { kind: ItemKind::Server, id: 1 }),
            (Area::new(20, 20, 30, 30), ItemRef { kind: ItemKind::ServerNote, id: 2 }),
        ],
    }
}

#[test]
fn center_of_each_region_resolves_to_it() {
    let t = RegionTable {
        links: vec![(Area::new(200, 200, 40, 10), "pass://s3cret".to_string())],
        action_buttons: vec![(Area::new(0, 0, 20, 20), ItemRef { kind: ItemKind::ServerPoi, id: 5 })],
    };
    assert_eq!(resolve(220, 205, &t), Action::RevealSecret("s3cret".to_string()));
    assert_eq!(
        resolve(10, 10, &t),
        Action::InvokeItemAction(ItemRef { kind: ItemKind::ServerPoi, id: 5 })
    );
}

#[test]
fn earlier_link_wins_where_links_overlap() {
    assert_eq!(resolve(60, 20, &table()), Action::OpenLink("https://example.com".to_string()));
    assert_eq!(resolve(140, 30, &table()), Action::RevealSecret("hunter2".to_string()));
}

#[test]
fn earlier_button_wins_where_buttons_overlap() {
    assert_eq!(
        resolve(25, 5, &table()),
        Action::InvokeItemAction(ItemRef { kind: ItemKind::Server, id: 1 })
    );
    assert_eq!(
        resolve(40, 40, &table()),
        Action::InvokeItemAction(ItemRef { kind: ItemKind::ServerNote, id: 2 })
    );
}

#[test]
fn link_wins_over_button() {
    assert_eq!(resolve(15, 15, &table()), Action::OpenLink("https://example.com".to_string()));
}

#[test]
fn point_outside_every_region_resolves_to_nothing() {
    assert_eq!(resolve(500, 500, &table()), Action::Nothing);
    assert_eq!(hover_cursor(500, 500, &table()), CursorKind::Text);
    assert_eq!(hover_cursor(15, 15, &table()), CursorKind::Pointer);
}

#[test]
fn bottom_right_edge_is_outside() {
    let t = RegionTable {
        links: vec![(Area::new(0, 0, 10, 10), "https://a".to_string())],
        action_buttons: vec![],
    };
    assert_eq!(resolve(9, 9, &t), Action::OpenLink("https://a".to_string()));
    assert_eq!(resolve(10, 5, &t), Action::Nothing);
    assert_eq!(resolve(5, 10, &t), Action::Nothing);
}

#[test]
fn zero_area_region_is_never_hit() {
    let t = RegionTable {
        links: vec![(Area::new(5, 5, 0, 0), "https://a".to_string())],
        action_buttons: vec![],
    };
    assert_eq!(resolve(5, 5, &t), Action::Nothing);
}

#[test]
fn link_payloads() {
    assert_eq!(link_action_of("pass://p1"), Action::RevealSecret("p1".to_string()));
    assert_eq!(link_action_of("pass://"), Action::RevealSecret(String::new()));
    assert_eq!(link_action_of("pass:/x"), Action::OpenLink("pass:/x".to_string()));
    assert_eq!(link_action_of("http://x"), Action::OpenLink("http://x".to_string()));
}
