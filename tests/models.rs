use projectpad::badge::FontSizeCache;
use projectpad::item::{DetailKind, ItemKind, ItemRef, ProjectPadItem};
use projectpad::models::{
    EnvironmentType, ProjectNote, ServerAccessType, ServerDatabase, ServerLink, ServerNote,
    ServerType,
};
use projectpad::project_list::{find_project, project_to_activate, UpdateParents};
use projectpad::models::{normalize_group_name, Project};
use projectpad::text::{blank, starts_with, str_eq};

fn project(id: i32) -> Project {
    Project {
        id,
        name: format!("p{}", id),
        icon: None,
        has_dev: false,
        has_uat: false,
        has_stage: false,
        has_prod: false,
    }
}

#[test]
fn enum_names_read_back() {
    for e in [
        EnvironmentType::EnvDevelopment,
        EnvironmentType::EnvUat,
        EnvironmentType::EnvStage,
        EnvironmentType::EnvProd,
    ] {
        assert_eq!(EnvironmentType::from_name(e.name()), Some(e));
    }
    assert_eq!(ServerType::from_name("SrvReporting"), Some(ServerType::SrvReporting));
    assert_eq!(ServerType::from_name("SrvReportin"), None);
    assert_eq!(
        ServerAccessType::from_name("SrvAccessSshTunnel"),
        Some(ServerAccessType::SrvAccessSshTunnel)
    );
    assert_eq!(ServerAccessType::from_name(""), None);
}

#[test]
fn descriptions_and_labels() {
    assert_eq!(ServerType::SrvHttpOrProxy.desc(), "HTTP server or proxy");
    assert_eq!(ServerAccessType::SrvAccessRdp.desc(), "Remote Desktop (RDP)");
    assert_eq!(EnvironmentType::EnvStage.label(), "STG");
    assert_eq!(EnvironmentType::EnvUat.label(), "UAT");
}

#[test]
fn items_are_equal_by_kind_and_id() {
    let a = ProjectPadItem::ServerNote(ServerNote {
        id: 1,
        title: "a".to_string(),
        contents: String::new(),
        server_id: 1,
    });
    let b = ProjectPadItem::ServerNote(ServerNote {
        id: 1,
        title: "changed".to_string(),
        contents: "x".to_string(),
        server_id: 2,
    });
    let c = ProjectPadItem::ProjectNote(ProjectNote {
        id: 1,
        title: "a".to_string(),
        contents: String::new(),
        project_id: 1,
    });
    assert!(a == b);
    assert!(a != c);
    assert!(a.same_item(&b));
    assert_eq!(c.item_ref(), ItemRef { kind: ItemKind::ProjectNote, id: 1 });
}

#[test]
fn item_texts() {
    let db = ProjectPadItem::ServerDatabase(ServerDatabase {
        id: 1,
        desc: "main db".to_string(),
        name: "db".to_string(),
        text: "pg".to_string(),
        username: "admin".to_string(),
        password: String::new(),
        server_id: 1,
    });
    assert_eq!(db.title(), "main db");
    assert_eq!(db.detail(), "pg admin");
    assert_eq!(db.detail_kind(), DetailKind::Subtext);
    let empty_db = ProjectPadItem::ServerDatabase(ServerDatabase {
        id: 2,
        desc: String::new(),
        name: String::new(),
        text: String::new(),
        username: String::new(),
        password: String::new(),
        server_id: 1,
    });
    assert_eq!(empty_db.detail(), " ");
    let link = ProjectPadItem::ServerLink(ServerLink {
        id: 1,
        desc: "other".to_string(),
        linked_server_id: 2,
        project_id: 1,
    });
    assert_eq!(link.detail_kind(), DetailKind::Nothing);
    assert_eq!(link.detail(), "");
}

#[test]
fn badge_font_size_cache_keys_on_width() {
    let mut cache = FontSizeCache::new();
    assert_eq!(cache.lookup(56), None);
    cache.store(56, 21);
    assert_eq!(cache.lookup(56), Some(21));
    assert_eq!(cache.lookup(57), None);
    cache.store(60, 23);
    assert_eq!(cache.lookup(56), None);
}

#[test]
fn project_activated_after_reload() {
    let projects = vec![project(3), project(5), project(5)];
    assert_eq!(find_project(&projects, 5), Some(1));
    assert_eq!(project_to_activate(&projects, Some(5)), Some((1, UpdateParents::No)));
    assert_eq!(project_to_activate(&projects, Some(9)), Some((0, UpdateParents::Yes)));
    assert_eq!(project_to_activate(&projects, None), Some((0, UpdateParents::Yes)));
    assert_eq!(project_to_activate(&vec![], Some(5)), None);
}

#[test]
fn text_helpers() {
    assert!(str_eq("abc", "abc"));
    assert!(!str_eq("abc", "abd"));
    assert!(!str_eq("ab", "abc"));
    assert!(starts_with("pass://x", "pass://"));
    assert!(!starts_with("pass:", "pass://"));
    assert!(blank(" \t\n\u{3000}"));
    assert!(blank(""));
    assert!(!blank(" a "));
}

#[test]
fn empty_group_name_is_no_group() {
    assert_eq!(normalize_group_name(Some(String::new())), None);
    assert_eq!(normalize_group_name(Some("web".to_string())), Some("web".to_string()));
    assert_eq!(normalize_group_name(None), None);
}
