use projectpad::geometry::Area;
use projectpad::item::{ItemKind, ItemRef, ProjectPadItem};
use projectpad::models::{
    EnvironmentType, Project, Server, ServerAccessType, ServerDatabase, ServerType, ServerWebsite,
};
use projectpad::paint::{
    paint, Border, Depth, DrawOp, Icon, RowStyle, StyleMetrics, TextExtents, ROW_HEIGHT,
};
use projectpad::resolve::{resolve, Action};

fn border(left: i32, right: i32, top: i32, bottom: i32) -> Border {
    Border { left, right, top, bottom }
}

fn metrics() -> StyleMetrics {
    StyleMetrics {
        parent_row: RowStyle { padding: border(4, 4, 6, 6), margin: border(0, 0, 10, 0) },
        child_row: RowStyle { padding: border(2, 2, 3, 3), margin: border(0, 0, 5, 0) },
        action_button: border(3, 3, 2, 2),
        link_text: border(1, 1, 1, 1),
        subtext: border(2, 2, 2, 2),
    }
}

fn extents() -> TextExtents {
    TextExtents { title_width: 100, title_height: 18, detail_width: 120, detail_height: 16 }
}

fn project(id: i32, icon: Option<Vec<u8>>) -> ProjectPadItem {
    ProjectPadItem::Project(Project {
        id,
        name: "alpha".to_string(),
        icon,
        has_dev: true,
        has_uat: false,
        has_stage: false,
        has_prod: true,
    })
}

fn server(id: i32) -> ProjectPadItem {
    ProjectPadItem::Server(Server {
        id,
        desc: "gateway".to_string(),
        is_retired: false,
        ip: "10.0.0.1".to_string(),
        text: String::new(),
        username: "root".to_string(),
        password: String::new(),
        auth_key: None,
        auth_key_filename: None,
        server_type: ServerType::SrvApplication,
        access_type: ServerAccessType::SrvAccessSsh,
        ssh_tunnel_port: None,
        ssh_tunnel_through_server_id: None,
        environment: EnvironmentType::EnvProd,
        group_name: None,
        project_id: 1,
    })
}

fn website(id: i32, url: &str) -> ProjectPadItem {
    ProjectPadItem::ServerWebsite(ServerWebsite {
        id,
        desc: "portal".to_string(),
        url: url.to_string(),
        text: String::new(),
        username: String::new(),
        password: String::new(),
        server_id: 2,
    })
}

fn scenario() -> Vec<(ProjectPadItem, Depth)> {
    vec![
        (project(1, None), Depth::Parent),
        (server(2), Depth::Child),
        (website(3, "https://w1.example.com"), Depth::Child),
    ]
}

#[test]
fn end_to_end_scenario() {
    let items = scenario();
    let ext = vec![extents(); 3];
    let out = paint(&items, &ext, 800, None, &metrics());
    let s1 = ItemRef { kind: ItemKind::Server, id: 2 };
    let w1 = ItemRef { kind: ItemKind::ServerWebsite, id: 3 };
    assert_eq!(out.table.action_buttons.len(), 2);
    assert_eq!(out.table.action_buttons[0].1, s1);
    assert_eq!(out.table.action_buttons[1].1, w1);
    assert_eq!(out.table.links.len(), 1);
    assert_eq!(out.table.links[0].1, "https://w1.example.com");
    let a = out.table.links[0].0;
    let action = resolve(a.x + a.width / 2, a.y + a.height / 2, &out.table);
    assert_eq!(action, Action::OpenLink("https://w1.example.com".to_string()));
}

#[test]
fn region_areas_follow_the_layout() {
    let items = scenario();
    let ext = vec![extents(); 3];
    let out = paint(&items, &ext, 800, None, &metrics());
    // every action button sits in one column, 50 + 150 from the right edge
    assert_eq!(out.table.action_buttons[0].0, Area::new(600, 98, 22, 20));
    assert_eq!(out.table.action_buttons[1].0, Area::new(600, 188, 22, 20));
    assert_eq!(out.table.links[0].0, Area::new(155, 207, 120, 16));
    assert_eq!(out.content_height, 3 * ROW_HEIGHT);
}

#[test]
fn drawing_commands_of_a_website_row() {
    let items = scenario();
    let ext = vec![extents(); 3];
    let out = paint(&items, &ext, 800, None, &metrics());
    let expected_tail = vec![
        DrawOp::Frame { area: Area::new(150, 185, 500, 85), depth: Depth::Child },
        DrawOp::Icon { icon: Icon::Http, x: 154, y: 188 },
        DrawOp::Title { row: 2, x: 171, y: 187, project: false },
        DrawOp::ActionButton {
            area: Area::new(600, 188, 22, 20),
            depth: Depth::Child,
            pressed: false,
        },
        DrawOp::Icon { icon: Icon::Cog, x: 603, y: 190 },
        DrawOp::Link { row: 2, x: 155, y: 207 },
    ];
    let n = out.ops.len();
    assert_eq!(out.ops[n - 6..].to_vec(), expected_tail);
}

#[test]
fn project_row_has_title_and_badge_but_no_button() {
    let items = vec![(project(1, Some(vec![1, 2, 3])), Depth::Parent)];
    let out = paint(&items, &vec![extents()], 800, None, &metrics());
    assert!(out.table.action_buttons.is_empty());
    assert!(out.table.links.is_empty());
    assert_eq!(
        out.ops,
        vec![
            DrawOp::Title { row: 0, x: 158, y: 59, project: true },
            DrawOp::Badge { row: 0, x: 258, y: 40, size: 56 },
        ]
    );
}

#[test]
fn project_with_empty_icon_draws_no_badge() {
    let items = vec![(project(1, Some(vec![])), Depth::Parent)];
    let out = paint(&items, &vec![extents()], 800, None, &metrics());
    assert_eq!(out.ops.len(), 1);
}

#[test]
fn server_row_draws_environment_tag() {
    let items = vec![(server(7), Depth::Parent)];
    let out = paint(&items, &vec![extents()], 800, None, &metrics());
    assert_eq!(out.ops[2], DrawOp::Environment { env: EnvironmentType::EnvProd, x: 158, y: 34 });
    assert_eq!(out.table.action_buttons[0].0, Area::new(600, 16, 22, 20));
}

#[test]
fn pressed_item_button_is_drawn_pressed() {
    let items = scenario();
    let ext = vec![extents(); 3];
    let pressed = Some(ItemRef { kind: ItemKind::ServerWebsite, id: 3 });
    let out = paint(&items, &ext, 800, pressed, &metrics());
    let states: Vec<bool> = out
        .ops
        .iter()
        .filter_map(|op| match op {
            DrawOp::ActionButton { pressed, .. } => Some(*pressed),
            _ => None,
        })
        .collect();
    assert_eq!(states, vec![false, true]);
}

#[test]
fn repeated_paints_are_identical() {
    let items = scenario();
    let ext = vec![extents(); 3];
    let a = paint(&items, &ext, 800, None, &metrics());
    let b = paint(&items, &ext, 800, None, &metrics());
    assert_eq!(a.table.links, b.table.links);
    assert_eq!(a.table.action_buttons, b.table.action_buttons);
    assert_eq!(a.ops, b.ops);
}

#[test]
fn rows_are_a_fixed_height_apart_whatever_their_content() {
    let db = ProjectPadItem::ServerDatabase(ServerDatabase {
        id: 9,
        desc: "a database with a rather long description".to_string(),
        name: "db".to_string(),
        text: String::new(),
        username: String::new(),
        password: String::new(),
        server_id: 2,
    });
    let items = vec![
        (website(3, "https://a"), Depth::Child),
        (db, Depth::Child),
        (website(4, "https://b"), Depth::Child),
    ];
    let ext = vec![
        extents(),
        TextExtents { title_width: 340, title_height: 18, detail_width: 0, detail_height: 0 },
        extents(),
    ];
    let out = paint(&items, &ext, 800, None, &metrics());
    let b = &out.table.action_buttons;
    assert_eq!(b[1].0.y - b[0].0.y, ROW_HEIGHT);
    assert_eq!(b[2].0.y - b[1].0.y, ROW_HEIGHT);
    assert_eq!(out.table.links[1].0.y - out.table.links[0].0.y, 2 * ROW_HEIGHT);
}

#[test]
fn narrow_canvas_gives_empty_frame() {
    let items = vec![(website(3, "https://a"), Depth::Parent)];
    let out = paint(&items, &vec![extents()], 100, None, &metrics());
    assert_eq!(out.ops[0], DrawOp::Frame { area: Area::new(150, 10, 0, 80), depth: Depth::Parent });
}

#[test]
fn empty_item_list_paints_nothing() {
    let out = paint(&vec![], &vec![], 800, None, &metrics());
    assert!(out.ops.is_empty());
    assert!(out.table.links.is_empty());
    assert!(out.table.action_buttons.is_empty());
    assert_eq!(out.content_height, 0);
}

#[test]
fn subtext_uses_its_own_padding() {
    let db = ProjectPadItem::ServerDatabase(ServerDatabase {
        id: 9,
        desc: "db".to_string(),
        name: "db".to_string(),
        text: "pg".to_string(),
        username: "admin".to_string(),
        password: String::new(),
        server_id: 2,
    });
    let out = paint(&vec![(db, Depth::Child)], &vec![extents()], 800, None, &metrics());
    assert_eq!(out.ops[5], DrawOp::Subtext { row: 0, x: 156, y: 28 });
    assert!(out.table.links.is_empty());
}

#[test]
fn parent_and_child_buttons_share_a_column() {
    let items = vec![(server(2), Depth::Parent), (website(3, "https://a"), Depth::Child)];
    let out = paint(&items, &vec![extents(); 2], 640, None, &metrics());
    assert_eq!(out.table.action_buttons[0].0.x, 440);
    assert_eq!(out.table.action_buttons[1].0.x, 440);
}
