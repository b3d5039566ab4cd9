use iota_wallet_tui::explorer_keys::{handle_explorer_key, LookupKeyOutcome};
use iota_wallet_tui::keys::Key;
use iota_wallet_tui::lookup::LookupResult;
use iota_wallet_tui::state::App;
use iota_wallet_tui::types::{
    InputMode, LookupAction, LookupField, LookupSection, ObjectDisplay, Screen,
};
use iota_wallet_tui::wallet::WalletCmd;

fn app() -> App {
    App::new(vec![], vec![], 0)
}

fn field(key: &str, action: Option<LookupAction>) -> LookupField {
    LookupField { key: key.to_string(), value: String::new(), action }
}

fn section(title: &str, fields: Vec<LookupField>, collapsed: bool) -> LookupSection {
    LookupSection { title: title.to_string(), fields, collapsed }
}

fn object(id: &str) -> ObjectDisplay {
    ObjectDisplay {
        object_id: id.to_string(),
        object_type: "0x2::coin::Coin".to_string(),
        version: "1".to_string(),
        digest: "d".to_string(),
        owner: "o".to_string(),
        owner_alias: String::new(),
    }
}

fn typed(app: &mut App, text: &str) {
    app.start_input("");
    for c in text.chars() {
        handle_explorer_key(app, Key::Char(c));
    }
}

#[test]
fn submitting_an_id_looks_it_up() {
    let mut a = app();
    typed(&mut a, "0xabc");
    handle_explorer_key(&mut a, Key::Enter);
    assert_eq!(a.input_mode, InputMode::Normal);
    assert_eq!(a.input_buffer, "");
    assert!(!a.explorer.search_mode);
    assert_eq!(a.explorer.lookup_query.as_deref(), Some("0xabc"));
    assert_eq!(a.explorer.lookup_address.as_deref(), Some("0xabc"));
    assert!(matches!(a.outbox.last(), Some(WalletCmd::LookupAddress(q)) if q == "0xabc"));
}

#[test]
fn submitting_a_type_searches_for_it() {
    let mut a = app();
    typed(&mut a, "coin::Coin");
    handle_explorer_key(&mut a, Key::Enter);
    assert!(a.explorer.search_mode);
    assert_eq!(a.explorer.search_type, "coin::Coin");
    assert!(matches!(
        a.outbox.last(),
        Some(WalletCmd::SearchObjectsByType { type_filter, cursor: None }) if type_filter == "coin::Coin"
    ));
}

#[test]
fn submitting_nothing_only_closes_the_line() {
    let mut a = app();
    a.start_input("");
    handle_explorer_key(&mut a, Key::Enter);
    assert_eq!(a.input_mode, InputMode::Normal);
    assert!(a.outbox.is_empty());
    typed(&mut a, "abc");
    handle_explorer_key(&mut a, Key::Esc);
    assert_eq!(a.input_mode, InputMode::Normal);
    assert!(a.outbox.is_empty());
}

#[test]
fn enter_with_nothing_on_screen_opens_the_input() {
    let mut a = app();
    handle_explorer_key(&mut a, Key::Enter);
    assert_eq!(a.input_mode, InputMode::Editing);
    assert_eq!(a.input_buffer, "");
}

#[test]
fn search_list_moves_and_explores_the_selected_row() {
    let mut a = app();
    a.explorer.search_results = vec![object("0x1"), object("0x2"), object("0x3")];
    handle_explorer_key(&mut a, Key::Down);
    handle_explorer_key(&mut a, Key::Down);
    handle_explorer_key(&mut a, Key::Down);
    assert_eq!(a.explorer.search_selected, 2);
    handle_explorer_key(&mut a, Key::Up);
    assert_eq!(a.explorer.search_selected, 1);
    handle_explorer_key(&mut a, Key::End);
    assert_eq!(a.explorer.search_selected, 2);
    handle_explorer_key(&mut a, Key::Home);
    assert_eq!(a.explorer.search_selected, 0);
    handle_explorer_key(&mut a, Key::Down);
    handle_explorer_key(&mut a, Key::Enter);
    assert_eq!(a.screen, Screen::Explorer);
    assert!(a.explorer.search_results.is_empty());
    assert_eq!(a.exploring.as_deref(), Some("0x2"));
    assert!(matches!(a.outbox.last(), Some(WalletCmd::LookupAddress(q)) if q == "0x2"));
}

#[test]
fn search_selection_scrolls_into_view() {
    let mut a = app();
    a.explorer.visible_rows = 2;
    a.explorer.search_results = vec![object("0x1"), object("0x2"), object("0x3"), object("0x4")];
    handle_explorer_key(&mut a, Key::End);
    assert_eq!(a.explorer.search_selected, 3);
    assert_eq!(a.explorer.search_offset, 2);
    handle_explorer_key(&mut a, Key::Home);
    assert_eq!(a.explorer.search_offset, 0);
}

fn tree_app() -> App {
    let mut a = app();
    a.explorer.lookup_result = Some(LookupResult::Object {
        sections: vec![
            section(
                "Object",
                vec![
                    field("id", Some(LookupAction::Explore("0xfeed".to_string()))),
                    field("type", Some(LookupAction::TypeSearch("0x2::coin::Coin".to_string()))),
                    field("version", None),
                ],
                false,
            ),
            section("Owner", vec![field("owner", None)], true),
        ],
    });
    a
}

fn cursor(a: &App) -> (usize, usize, usize) {
    (a.explorer.lookup_section, a.explorer.lookup_depth, a.explorer.lookup_field_idx)
}

fn collapsed(a: &App, i: usize) -> bool {
    a.explorer.lookup_result.as_ref().unwrap().sections()[i].collapsed
}

#[test]
fn tree_cursor_walks_fields_and_headings() {
    let mut a = tree_app();
    handle_explorer_key(&mut a, Key::Down);
    assert_eq!(cursor(&a), (0, 1, 0));
    handle_explorer_key(&mut a, Key::Down);
    handle_explorer_key(&mut a, Key::Down);
    assert_eq!(cursor(&a), (0, 1, 2));
    handle_explorer_key(&mut a, Key::Down);
    assert_eq!(cursor(&a), (1, 0, 0));
    handle_explorer_key(&mut a, Key::Down);
    assert_eq!(cursor(&a), (1, 0, 0));
    handle_explorer_key(&mut a, Key::Up);
    assert_eq!(cursor(&a), (0, 1, 2));
    handle_explorer_key(&mut a, Key::Left);
    assert_eq!(cursor(&a), (0, 0, 0));
    handle_explorer_key(&mut a, Key::End);
    assert_eq!(cursor(&a), (1, 0, 0));
}

#[test]
fn left_and_right_fold_and_unfold_headings() {
    let mut a = tree_app();
    handle_explorer_key(&mut a, Key::End);
    assert!(collapsed(&a, 1));
    handle_explorer_key(&mut a, Key::Right);
    assert!(!collapsed(&a, 1));
    assert_eq!(cursor(&a), (1, 0, 0));
    handle_explorer_key(&mut a, Key::Right);
    assert_eq!(cursor(&a), (1, 1, 0));
    handle_explorer_key(&mut a, Key::Left);
    assert_eq!(cursor(&a), (1, 0, 0));
    handle_explorer_key(&mut a, Key::Left);
    assert!(collapsed(&a, 1));
    handle_explorer_key(&mut a, Key::Enter);
    assert!(!collapsed(&a, 1));
    handle_explorer_key(&mut a, Key::Enter);
    assert!(collapsed(&a, 1));
}

#[test]
fn enter_on_a_field_follows_its_action() {
    let mut a = tree_app();
    handle_explorer_key(&mut a, Key::Down);
    handle_explorer_key(&mut a, Key::Down);
    handle_explorer_key(&mut a, Key::Enter);
    assert!(a.explorer.search_mode);
    assert_eq!(a.explorer.search_type, "0x2::coin::Coin");
    assert!(matches!(
        a.outbox.last(),
        Some(WalletCmd::SearchObjectsByType { type_filter, cursor: None }) if type_filter == "0x2::coin::Coin"
    ));

    let mut b = tree_app();
    handle_explorer_key(&mut b, Key::Down);
    handle_explorer_key(&mut b, Key::Enter);
    assert_eq!(b.exploring.as_deref(), Some("0xfeed"));
    assert!(matches!(b.outbox.last(), Some(WalletCmd::LookupAddress(q)) if q == "0xfeed"));

    let mut c = tree_app();
    c.explorer.lookup_section = 0;
    c.explorer.lookup_depth = 1;
    c.explorer.lookup_field_idx = 2;
    handle_explorer_key(&mut c, Key::Enter);
    assert!(c.outbox.is_empty());
}

#[test]
fn esc_clears_results_and_paging() {
    let mut a = tree_app();
    a.explorer.search_cursors = vec![None];
    a.explorer.search_has_next = true;
    a.explorer.lookup_section = 1;
    handle_explorer_key(&mut a, Key::Esc);
    assert!(a.explorer.lookup_result.is_none());
    assert!(a.explorer.search_cursors.is_empty());
    assert!(!a.explorer.search_has_next);
    assert_eq!(cursor(&a), (0, 0, 0));
}

#[test]
fn search_pages_forward_and_back() {
    let mut a = app();
    a.explorer.search_results = vec![object("0x1")];
    a.explorer.search_type = "T".to_string();
    a.explorer.search_has_next = true;
    a.explorer.search_cursor = Some("c1".to_string());
    handle_explorer_key(&mut a, Key::Char(']'));
    assert_eq!(a.explorer.search_cursors, vec![Some("c1".to_string())]);
    assert!(matches!(
        a.outbox.last(),
        Some(WalletCmd::SearchObjectsByType { type_filter, cursor: Some(c) }) if type_filter == "T" && c == "c1"
    ));
    handle_explorer_key(&mut a, Key::Char('['));
    assert!(a.explorer.search_cursors.is_empty());
    assert!(matches!(
        a.outbox.last(),
        Some(WalletCmd::SearchObjectsByType { type_filter, cursor: Some(c) }) if type_filter == "T" && c == "c1"
    ));
    assert_eq!(a.outbox.len(), 2);
}

#[test]
fn address_pages_forward_and_back() {
    let mut a = app();
    a.explorer.lookup_address = Some("0xaaa".to_string());
    a.explorer.lookup_result = Some(LookupResult::Address { sections: vec![] });
    a.explorer.lookup_obj_has_next = true;
    a.explorer.lookup_obj_cursor = Some("o1".to_string());
    handle_explorer_key(&mut a, Key::Char(']'));
    assert_eq!(a.explorer.lookup_obj_page, 1);
    assert_eq!(a.explorer.lookup_tx_page, 1);
    assert_eq!(a.explorer.lookup_obj_cursors, vec![Some("o1".to_string())]);
    assert_eq!(a.explorer.lookup_tx_cursors, vec![None]);
    assert!(matches!(
        a.outbox.last(),
        Some(WalletCmd::LookupAddressPage { address, obj_cursor: Some(o), tx_cursor: None })
            if address == "0xaaa" && o == "o1"
    ));
    handle_explorer_key(&mut a, Key::Char('['));
    assert_eq!(a.explorer.lookup_obj_page, 0);
    assert_eq!(a.explorer.lookup_tx_page, 0);
    assert!(a.explorer.lookup_obj_cursors.is_empty());
    assert!(matches!(
        a.outbox.last(),
        Some(WalletCmd::LookupAddressPage { obj_cursor: Some(o), tx_cursor: None, .. }) if o == "o1"
    ));
    handle_explorer_key(&mut a, Key::Char('['));
    assert_eq!(a.outbox.len(), 2);
}

#[test]
fn lookup_view_reports_what_the_app_should_do() {
    let mut a = app();
    assert!(matches!(a.explorer.lookup_view_key(Key::Enter), LookupKeyOutcome::StartInput));
    assert!(matches!(a.explorer.lookup_view_key(Key::Char('x')), LookupKeyOutcome::Handled));
    a.explorer.search_results = vec![object("0x9")];
    assert!(matches!(
        a.explorer.lookup_view_key(Key::Enter),
        LookupKeyOutcome::Explore(id) if id == "0x9"
    ));
    assert!(a.explorer.search_results.is_empty());
}

#[test]
fn tree_keys_keep_the_cursor_in_the_window() {
    let mut a = tree_app();
    a.explorer.visible_rows = 2;
    for key in [Key::Down, Key::Down, Key::Down, Key::Down, Key::Up, Key::End, Key::Home, Key::Down] {
        handle_explorer_key(&mut a, key);
        let (s, d, f) = cursor(&a);
        let line = a.explorer.lookup_result.as_ref().unwrap().cursor_to_line(s, d, f);
        assert!(a.explorer.lookup_offset <= line);
        assert!(line < a.explorer.lookup_offset + a.explorer.visible_rows);
    }
}
