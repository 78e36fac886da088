use projectpad::history::{
    history_contents, history_file_path, parse_history, parse_history_line,
    serialize_history_line, upgrade_check_time_path, upgrade_days_since, LinkedItem,
};

fn strs(v: &[&str]) -> Vec<String> {
    v.iter().map(|s| s.to_string()).collect()
}

#[test]
fn config_file_paths() {
    let dir = strs(&["home", "me", ".projectpad"]);
    assert_eq!(
        upgrade_check_time_path(&dir),
        strs(&["home", "me", ".projectpad", "upgrade-check-date"])
    );
    assert_eq!(history_file_path(&dir), strs(&["home", "me", ".projectpad", "cli-history"]));
    assert_eq!(history_file_path(&vec![]), strs(&["cli-history"]));
}

#[test]
fn parse_linked_history_lines() {
    assert_eq!(parse_history_line("S;12;ssh prod"), ("ssh prod".to_string(), LinkedItem::ServerId(12)));
    assert_eq!(parse_history_line("P;-3;x"), ("x".to_string(), LinkedItem::ProjectPoiId(-3)));
    assert_eq!(parse_history_line("SP;+7;a;b"), ("a;b".to_string(), LinkedItem::ServerPoiId(7)));
    assert_eq!(parse_history_line("S;1;"), (String::new(), LinkedItem::ServerId(1)));
}

#[test]
fn parse_plain_history_lines() {
    for line in ["plain text", "S;12", "X;12;text", "S;1x;text", "S;;text", "S;99999999999;t", ""] {
        assert_eq!(parse_history_line(line), (line.to_string(), LinkedItem::NoItem), "{}", line);
    }
    assert_eq!(
        parse_history_line("S;2147483647;t"),
        ("t".to_string(), LinkedItem::ServerId(2147483647))
    );
    assert_eq!(
        parse_history_line("S;-2147483648;t"),
        ("t".to_string(), LinkedItem::ServerId(-2147483648))
    );
    assert_eq!(parse_history_line("S;2147483648;t").1, LinkedItem::NoItem);
}

#[test]
fn serialize_history_lines() {
    let t = "run it".to_string();
    assert_eq!(serialize_history_line((&t, &LinkedItem::NoItem)), "run it");
    assert_eq!(serialize_history_line((&t, &LinkedItem::ServerId(42))), "S;42;run it");
    assert_eq!(serialize_history_line((&t, &LinkedItem::ProjectPoiId(-5))), "P;-5;run it");
    assert_eq!(serialize_history_line((&t, &LinkedItem::ServerPoiId(0))), "SP;0;run it");
    assert_eq!(
        serialize_history_line((&t, &LinkedItem::ServerId(i32::MIN))),
        "S;-2147483648;run it"
    );
}

#[test]
fn history_line_round_trip() {
    for item in [LinkedItem::ServerId(7), LinkedItem::ProjectPoiId(123456), LinkedItem::ServerPoiId(-1)] {
        let text = "a;b c".to_string();
        let line = serialize_history_line((&text, &item));
        assert_eq!(parse_history_line(&line), (text, item));
    }
}

#[test]
fn parse_history_file_lines() {
    let (texts, items) = parse_history(&strs(&["S;1;a", "b"]));
    assert_eq!(texts, strs(&["a", "b"]));
    assert_eq!(items, vec![LinkedItem::ServerId(1), LinkedItem::NoItem]);
}

#[test]
fn history_not_rewritten_for_repeated_entry() {
    let h = strs(&["a", "b"]);
    let items = vec![LinkedItem::NoItem, LinkedItem::ServerId(3)];
    assert_eq!(history_contents(&h, &items, ("b", LinkedItem::ServerId(3)), 10), None);
    assert_eq!(
        history_contents(&h, &items, ("b", LinkedItem::ServerId(4)), 10),
        Some("a\nS;3;b\nS;4;b".to_string())
    );
}

#[test]
fn history_keeps_the_latest_entries() {
    let h = strs(&["a", "b", "c"]);
    let items = vec![LinkedItem::NoItem; 3];
    assert_eq!(history_contents(&h, &items, ("d", LinkedItem::NoItem), 2), Some("c\nd".to_string()));
    assert_eq!(
        history_contents(&h, &items, ("d", LinkedItem::NoItem), 10),
        Some("a\nb\nc\nd".to_string())
    );
    // a blank entry does not count toward the limit
    assert_eq!(
        history_contents(&h, &items, ("  ", LinkedItem::NoItem), 2),
        Some("b\nc\n  ".to_string())
    );
    assert_eq!(history_contents(&vec![], &vec![], ("x", LinkedItem::NoItem), 1), Some("x".to_string()));
}

#[test]
fn history_reads_up_to_the_shorter_list() {
    let h = strs(&["a", "b", "c"]);
    let items = vec![LinkedItem::NoItem];
    assert_eq!(history_contents(&h, &items, ("a", LinkedItem::NoItem), 10), None);
}

#[test]
fn days_since_last_upgrade_check() {
    assert_eq!(upgrade_days_since(1_000_000, None), Some(365));
    assert_eq!(upgrade_days_since(86_400 * 3 + 5, Some(5)), Some(3));
    assert_eq!(upgrade_days_since(86_399, Some(0)), Some(0));
    assert_eq!(upgrade_days_since(10, Some(11)), None);
}

#[test]
fn repeated_entry_needs_no_limit() {
    let h = strs(&["a", "b"]);
    let items = vec![LinkedItem::NoItem, LinkedItem::ServerId(3)];
    assert_eq!(history_contents(&h, &items, ("b", LinkedItem::ServerId(3)), 0), None);
}
