use iota_wallet_tui::nav::{apply_delta, ListNav, NavKey};

#[test]
fn apply_delta_clamps() {
    assert_eq!(apply_delta(5, -10, 20), 0);
    assert_eq!(apply_delta(5, 3, 7), 6);
    assert_eq!(apply_delta(0, 1, 0), 0);
    assert_eq!(apply_delta(2, 1, 10), 3);
}

#[test]
fn list_nav_page_down_and_end() {
    let mut nav = ListNav { selected: 0, offset: 0, len: 30, visible_rows: 10 };
    assert!(nav.handle_key(NavKey::PageDown));
    assert_eq!(nav.selected, 10);
    assert_eq!(nav.offset, 1);
    assert!(nav.handle_key(NavKey::End));
    assert_eq!(nav.selected, 29);
    assert_eq!(nav.offset, 20);
    assert!(nav.handle_key(NavKey::Home));
    assert_eq!(nav.selected, 0);
    assert_eq!(nav.offset, 0);
}

#[test]
fn list_nav_up_down_bounds() {
    let mut nav = ListNav { selected: 0, offset: 0, len: 2, visible_rows: 5 };
    assert!(nav.handle_key(NavKey::Up));
    assert_eq!(nav.selected, 0);
    assert!(nav.handle_key(NavKey::Down));
    assert!(nav.handle_key(NavKey::Down));
    assert_eq!(nav.selected, 1);
    assert!(nav.handle_key(NavKey::PageUp));
    assert_eq!(nav.selected, 0);
}

#[test]
fn list_nav_ignores_other_keys() {
    let mut nav = ListNav { selected: 3, offset: 1, len: 10, visible_rows: 5 };
    assert!(!nav.handle_key(NavKey::Other));
    assert_eq!(nav.selected, 3);
    assert_eq!(nav.offset, 1);
}

#[test]
fn list_nav_keeps_selection_in_range_and_visible() {
    let keys = [NavKey::Up, NavKey::Down, NavKey::Home, NavKey::End, NavKey::PageUp, NavKey::PageDown];
    let mut nav = ListNav { selected: 4, offset: 0, len: 25, visible_rows: 6 };
    for round in 0..40 {
        nav.handle_key(keys[round % keys.len()]);
        assert!(nav.selected < nav.len);
        assert!(nav.offset <= nav.selected && nav.selected < nav.offset + nav.visible_rows);
    }
}
