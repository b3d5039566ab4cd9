use iota_wallet_tui::dispatch::KeyRequest;
use iota_wallet_tui::grid_keys::{Area, GridBox, Layout};
use iota_wallet_tui::mouse::{area_contains, handle_click, handle_popup_click};
use iota_wallet_tui::hints::HintRequest;
use iota_wallet_tui::state::App;
use iota_wallet_tui::types::{CoinDisplay, InputMode, Popup, Section};
use iota_wallet_tui::wallet::StoredKey;

fn stored(alias: &str, addr: &str, active: bool) -> StoredKey {
    StoredKey {
        alias: alias.to_string(),
        scheme: "ed25519".to_string(),
        private_key_bytes: vec![],
        address: addr.to_string(),
        is_active: active,
    }
}

fn app() -> App {
    App::new(vec![stored("main", "0xaaa", true)], vec![], 0)
}

fn coin(id: &str) -> CoinDisplay {
    CoinDisplay {
        coin_type: "0x2::iota::IOTA".to_string(),
        symbol: "IOTA".to_string(),
        balance: 1,
        balance_display: "1".to_string(),
        object_id: id.to_string(),
        owner_alias: "main".to_string(),
    }
}

fn area(x: u16, y: u16, w: u16, h: u16) -> Area {
    Area { x, y, width: w, height: h }
}

fn layout() -> Layout {
    Layout {
        grid_boxes: vec![
            GridBox { section: Section::Coins, area: area(0, 0, 40, 10) },
            GridBox { section: Section::Objects, area: area(40, 0, 40, 10) },
        ],
        frame: area(0, 0, 80, 24),
        content: area(0, 2, 80, 20),
        popup: area(20, 4, 40, 16),
        context_menu: area(10, 5, 20, 6),
        net_tag: area(60, 22, 10, 1),
        search_bar: area(0, 22, 30, 1),
        hints: vec![(area(70, 23, 8, 1), "refresh")],
    }
}

#[test]
fn area_contains_checks_both_edges() {
    let a = area(2, 3, 4, 2);
    assert!(area_contains(&a, 2, 3));
    assert!(area_contains(&a, 5, 4));
    assert!(!area_contains(&a, 6, 4));
    assert!(!area_contains(&a, 2, 5));
    assert!(!area_contains(&a, 1, 3));
}

#[test]
fn click_outside_popup_closes_it_and_clears_input() {
    let mut a = app();
    a.popup = Some(Popup::Help);
    a.input_mode = InputMode::Editing;
    a.input_buffer = "abc".to_string();
    let r = handle_popup_click(&mut a, 0, 0, &layout());
    assert!(matches!(r, HintRequest::Done));
    assert!(a.popup.is_none());
    assert_eq!(a.input_mode, InputMode::Normal);
    assert_eq!(a.input_buffer, "");
}

#[test]
fn click_inside_help_does_nothing() {
    let mut a = app();
    a.popup = Some(Popup::Help);
    handle_click(&mut a, 30, 10, false, &layout());
    assert_eq!(a.popup, Some(Popup::Help));
}

#[test]
fn click_on_network_option_switches_network() {
    let mut a = app();
    a.popup = Some(Popup::SwitchNetwork);
    a.connected = true;
    // popup top border at row 4; option lines start at inner row 3
    handle_click(&mut a, 30, 9, false, &layout());
    assert!(a.popup.is_none());
    assert!(!a.connected);
    assert!(a.loading);
    assert_eq!(a.network_name, "testnet...");
}

#[test]
fn click_on_blank_popup_line_keeps_popup() {
    let mut a = app();
    a.popup = Some(Popup::SwitchNetwork);
    handle_click(&mut a, 30, 6, false, &layout());
    assert_eq!(a.popup, Some(Popup::SwitchNetwork));
}

#[test]
fn confirm_quit_left_button_stops_right_button_closes() {
    let mut a = app();
    a.popup = Some(Popup::ConfirmQuit);
    handle_click(&mut a, 25, 8, false, &layout());
    assert!(!a.running);

    let mut b = app();
    b.popup = Some(Popup::ConfirmQuit);
    handle_click(&mut b, 50, 8, false, &layout());
    assert!(b.running);
    assert!(b.popup.is_none());
}

#[test]
fn click_on_network_tag_opens_network_popup() {
    let mut a = app();
    let out = handle_click(&mut a, 62, 22, false, &layout());
    assert!(matches!(out.request, KeyRequest::Nothing));
    assert_eq!(a.popup, Some(Popup::SwitchNetwork));
}

#[test]
fn search_bar_takes_and_loses_focus() {
    let mut a = app();
    handle_click(&mut a, 5, 22, false, &layout());
    assert!(a.search_focused);
    assert_eq!(a.input_mode, InputMode::Editing);
    handle_click(&mut a, 79, 19, false, &layout());
    assert!(!a.search_focused);
    assert_eq!(a.input_mode, InputMode::Normal);
}

#[test]
fn click_in_box_focuses_and_selects_row() {
    let mut a = app();
    a.coins = vec![coin("0x1"), coin("0x2"), coin("0x3")];
    a.focused_section = Section::Objects;
    handle_click(&mut a, 5, 3, false, &layout());
    assert_eq!(a.focused_section, Section::Coins);
    assert_eq!(a.coins_selected, 2);
    // a row past the list selects nothing
    handle_click(&mut a, 5, 7, false, &layout());
    assert_eq!(a.coins_selected, 2);
}

#[test]
fn expand_icon_opens_section_only_when_it_lists_something() {
    let mut a = app();
    handle_click(&mut a, 78, 0, false, &layout());
    assert_eq!(a.focused_section, Section::Objects);
    assert!(a.section_open.is_none());
    a.coins = vec![coin("0x1")];
    handle_click(&mut a, 38, 0, false, &layout());
    assert_eq!(a.section_open, Some(Section::Coins));
}

#[test]
fn double_click_opens_context_menu_and_click_outside_closes_it() {
    let mut a = app();
    a.coins = vec![coin("0x1")];
    handle_click(&mut a, 5, 1, true, &layout());
    let m = a.context_menu.clone().expect("menu");
    assert_eq!(m.section, Section::Coins);
    assert_eq!((m.anchor_row, m.anchor_col), (1, 5));
    handle_click(&mut a, 0, 0, false, &layout());
    assert!(a.context_menu.is_none());
}

#[test]
fn click_on_hint_runs_it() {
    let mut a = app();
    let out = handle_click(&mut a, 72, 23, false, &layout());
    assert!(matches!(out.request, KeyRequest::Nothing));
    assert!(out.save_theme.is_none());
}
