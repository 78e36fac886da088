use projectpad::scroll::ScrollTracker;

#[test]
fn scroll_guard_scenario() {
    let mut t = ScrollTracker { offset: 300 };
    assert!(!t.update(5));
    assert_eq!(t.offset, 300);
    assert!(t.update(280));
    assert_eq!(t.offset, 280);
}

#[test]
fn scroll_guard_thresholds() {
    let mut t = ScrollTracker { offset: 300 };
    // a drop of exactly 200 is taken
    assert!(t.update(100));
    let mut t = ScrollTracker { offset: 215 };
    // lands at 15, not below it
    assert!(t.update(15));
    let mut t = ScrollTracker { offset: 300 };
    assert!(t.update(15));
    let mut t = ScrollTracker { offset: 300 };
    assert!(!t.update(14));
    let mut t = ScrollTracker { offset: 213 };
    // close to the top, but not a large enough drop
    assert!(t.update(13));
    let mut t = ScrollTracker { offset: 214 };
    assert!(!t.update(13));
    let mut t = ScrollTracker::new();
    assert!(t.update(1000));
    assert!(!t.update(0));
    assert_eq!(t.offset, 1000);
}
