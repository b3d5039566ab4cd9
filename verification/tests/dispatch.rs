use iota_wallet_tui::context_keys::{execute_context_action, handle_context_menu_key};
use iota_wallet_tui::dispatch::{handle_key, handle_section_overlay_key, KeyRequest};
use iota_wallet_tui::grid_keys::{handle_grid_key, move_focus, Area, GridBox, Layout};
use iota_wallet_tui::hints::HintRequest;
use iota_wallet_tui::keys::Key;
use iota_wallet_tui::screen_keys::{
    handle_address_key, handle_coins_key, handle_keys_key, handle_transactions_key, handle_tx_key,
};
use iota_wallet_tui::state::App;
use iota_wallet_tui::types::{
    CoinDisplay, ContextAction, InputMode, Popup, PtbCommand, Screen, Section, TxBuilderStep,
};
use iota_wallet_tui::wallet::{StoredKey, WalletCmd};

fn stored(alias: &str, addr: &str, active: bool) -> StoredKey {
    StoredKey {
        alias: alias.to_string(),
        scheme: "ed25519".to_string(),
        private_key_bytes: vec![],
        address: addr.to_string(),
        is_active: active,
    }
}

fn app() -> App {
    App::new(vec![stored("main", "0xaaa", true), stored("spare", "0xbbb", false)], vec![], 0)
}

fn coin(symbol: &str, id: &str) -> CoinDisplay {
    CoinDisplay {
        coin_type: format!("0x2::{}::{}", symbol.to_lowercase(), symbol),
        symbol: symbol.to_string(),
        balance: 1,
        balance_display: "1".to_string(),
        object_id: id.to_string(),
        owner_alias: "main".to_string(),
    }
}

fn area(x: u16, y: u16, w: u16, h: u16) -> Area {
    Area { x, y, width: w, height: h }
}

fn layout() -> Layout {
    Layout {
        grid_boxes: vec![
            GridBox { section: Section::Coins, area: area(0, 0, 40, 10) },
            GridBox { section: Section::Objects, area: area(40, 0, 40, 10) },
            GridBox { section: Section::Transactions, area: area(0, 10, 40, 10) },
            GridBox { section: Section::Packages, area: area(40, 10, 40, 10) },
        ],
        frame: area(0, 0, 80, 24),
        content: area(0, 2, 80, 20),
        popup: area(20, 4, 40, 16),
        context_menu: area(0, 0, 0, 0),
        net_tag: area(60, 22, 10, 1),
        search_bar: area(0, 22, 30, 1),
        hints: vec![(area(70, 23, 8, 1), "refresh")],
    }
}

#[test]
fn keys_screen_moves_and_toggles() {
    let mut a = app();
    handle_keys_key(&mut a, Key::Down);
    assert_eq!(a.keys_selected, 1);
    handle_keys_key(&mut a, Key::Down);
    assert_eq!(a.keys_selected, 1);
    handle_keys_key(&mut a, Key::Char('p'));
    assert!(a.keys_show_private);
    handle_keys_key(&mut a, Key::Delete);
    assert_eq!(a.popup, Some(Popup::ConfirmDeleteKey));
}

#[test]
fn address_screen_opens_the_name_lookup() {
    let mut a = app();
    handle_address_key(&mut a, Key::Char('l'));
    assert_eq!(a.popup, Some(Popup::LookupIotaName));
    assert_eq!(a.input_mode, InputMode::Editing);
}

#[test]
fn coin_filter_narrows_and_closes() {
    let mut a = app();
    a.coins = vec![coin("IOTA", "0xc1"), coin("USDC", "0xc2"), coin("IOTA", "0xc3")];
    a.coins_selected = 2;
    handle_coins_key(&mut a, Key::Char('/'));
    assert_eq!(a.coins_filter.as_deref(), Some(""));
    assert_eq!(a.coins_selected, 0);
    handle_coins_key(&mut a, Key::Char('u'));
    handle_coins_key(&mut a, Key::Char('s'));
    assert_eq!(a.coins_filter.as_deref(), Some("us"));
    assert_eq!(a.filtered_coins(), vec![1]);
    handle_coins_key(&mut a, Key::Down);
    assert_eq!(a.coins_selected, 0);
    let r = handle_coins_key(&mut a, Key::Enter);
    assert!(matches!(r, HintRequest::Done));
    assert!(matches!(a.outbox.last(), Some(WalletCmd::LookupAddress(q)) if q == "0xc2"));
    assert_eq!(a.coins_selected, 0);
    handle_coins_key(&mut a, Key::Backspace);
    handle_coins_key(&mut a, Key::Backspace);
    assert!(a.coins_filter.is_none());
}

#[test]
fn coin_list_asks_the_faucet_for_the_active_key() {
    let mut a = app();
    assert!(matches!(handle_coins_key(&mut a, Key::Char('f')), HintRequest::Faucet(x) if x == "0xaaa"));
}

#[test]
fn transaction_filter_esc_closes_it() {
    let mut a = app();
    handle_transactions_key(&mut a, Key::Char('/'));
    assert!(a.transactions_filter.is_some());
    handle_transactions_key(&mut a, Key::Esc);
    assert!(a.transactions_filter.is_none());
}

#[test]
fn builder_steps_edit_gas_and_submit() {
    let mut a = app();
    a.total_balance_iota = 10_000_000_000;
    a.tx.commands = vec![PtbCommand::TransferIota {
        recipient: "0x1".to_string(),
        amount: "1".to_string(),
    }];
    handle_tx_key(&mut a, Key::Down);
    assert_eq!(a.tx.sender, 1);
    assert!(a.tx.dry_run_dirty);
    handle_tx_key(&mut a, Key::Enter);
    assert_eq!(a.tx.step, TxBuilderStep::EditCommands);
    handle_tx_key(&mut a, Key::Right);
    assert_eq!(a.tx.step, TxBuilderStep::SetGas);
    handle_tx_key(&mut a, Key::Char('e'));
    assert_eq!(a.input_mode, InputMode::Editing);
    assert_eq!(a.input_buffer, "10000000");
    handle_tx_key(&mut a, Key::Backspace);
    handle_tx_key(&mut a, Key::Enter);
    assert_eq!(a.tx.gas_budget, "1000000");
    assert!(a.tx.gas_edited);
    handle_tx_key(&mut a, Key::Right);
    assert_eq!(a.tx.step, TxBuilderStep::Review);
    assert!(a.tx.dry_running);
    assert!(matches!(a.outbox.last(), Some(WalletCmd::DryRun { sender_idx: 1, commands }) if commands.len() == 1));
    handle_tx_key(&mut a, Key::Enter);
    assert!(matches!(
        a.outbox.last(),
        Some(WalletCmd::ExecutePtb { sender_idx: 1, commands, gas_budget: 1_000_000 }) if commands.len() == 1
    ));
}

#[test]
fn submitting_without_enough_balance_sends_nothing() {
    let mut a = app();
    a.tx.commands = vec![PtbCommand::TransferIota {
        recipient: "0x1".to_string(),
        amount: "1".to_string(),
    }];
    a.tx.step = TxBuilderStep::Review;
    handle_tx_key(&mut a, Key::Enter);
    assert!(a.outbox.is_empty());
}

#[test]
fn focus_goes_round_and_to_the_nearest_box_below() {
    let l = layout();
    assert_eq!(move_focus(&l.grid_boxes, Section::Coins, 1, 0), Section::Objects);
    assert_eq!(move_focus(&l.grid_boxes, Section::Coins, -1, 0), Section::Packages);
    assert_eq!(move_focus(&l.grid_boxes, Section::Objects, 0, 1), Section::Packages);
    assert_eq!(move_focus(&l.grid_boxes, Section::Objects, 0, -1), Section::Objects);
    assert_eq!(move_focus(&l.grid_boxes, Section::Staking, 1, 0), Section::Staking);
}

#[test]
fn grid_opens_boxes_and_menus() {
    let l = layout();
    let mut a = app();
    handle_grid_key(&mut a, Key::Enter, false, &l);
    assert!(a.section_open.is_none());
    a.coins = vec![coin("IOTA", "0xc1"), coin("IOTA", "0xc2")];
    a.coins_selected = 1;
    handle_grid_key(&mut a, Key::Char('/'), false, &l);
    let menu = a.context_menu.as_ref().unwrap();
    assert_eq!(menu.section, Section::Coins);
    assert_eq!((menu.anchor_row, menu.anchor_col), (2, 20));
    a.context_menu = None;
    handle_grid_key(&mut a, Key::Enter, false, &l);
    assert_eq!(a.section_open, Some(Section::Coins));
    assert!(matches!(handle_grid_key(&mut a, Key::Char('c'), false, &l), HintRequest::Copy));
}

#[test]
fn context_menu_moves_round_and_runs_actions() {
    let l = layout();
    let mut a = app();
    a.transactions = vec![];
    handle_section_overlay_key(&mut a, Key::Char('/'), Section::Transactions, &l);
    let menu = a.context_menu.as_ref().unwrap();
    assert_eq!(menu.actions, vec![ContextAction::ViewDetails, ContextAction::CopyDigest]);
    assert_eq!((menu.anchor_row, menu.anchor_col), (12, 40));
    handle_context_menu_key(&mut a, Key::Up);
    assert_eq!(a.context_menu.as_ref().unwrap().selected, 1);
    handle_context_menu_key(&mut a, Key::Down);
    assert_eq!(a.context_menu.as_ref().unwrap().selected, 0);
    let r = handle_context_menu_key(&mut a, Key::Enter);
    assert!(matches!(r, HintRequest::Done));
    assert!(a.context_menu.is_none());
    assert_eq!(a.popup, Some(Popup::Detail));
    assert_eq!(a.screen, Screen::Transactions);
}

#[test]
fn context_actions_copy_and_explore() {
    let mut a = app();
    a.coins = vec![coin("IOTA", "0xc1")];
    assert!(matches!(execute_context_action(&mut a, Section::Coins, ContextAction::CopyId), HintRequest::Copy));
    execute_context_action(&mut a, Section::Coins, ContextAction::Explore);
    assert_eq!(a.exploring.as_deref(), Some("0xc1"));
    assert_eq!(a.search_buffer, "0xc1");
    assert!(matches!(a.outbox.last(), Some(WalletCmd::LookupAddress(q)) if q == "0xc1"));
}

#[test]
fn ctrl_c_stops_and_q_asks_to_quit() {
    let l = layout();
    let mut a = app();
    let out = handle_key(&mut a, Key::Char('q'), false, &l);
    assert!(matches!(out.request, KeyRequest::Nothing));
    assert_eq!(a.popup, Some(Popup::ConfirmQuit));
    handle_key(&mut a, Key::Char('c'), true, &l);
    assert!(!a.running);
}

#[test]
fn error_log_shortcut_asks_for_the_log() {
    let l = layout();
    let mut a = app();
    let out = handle_key(&mut a, Key::Char('E'), false, &l);
    assert!(matches!(out.request, KeyRequest::LoadErrorLog));
    assert_eq!(a.popup, Some(Popup::ErrorLog));
}

#[test]
fn the_secret_sequence_toggles_the_theme() {
    let l = layout();
    let mut a = app();
    a.tx_builder_open = true;
    a.tx.step = TxBuilderStep::EditCommands;
    let keys = [
        Key::Up,
        Key::Up,
        Key::Down,
        Key::Down,
        Key::Left,
        Key::Right,
        Key::Left,
        Key::Right,
        Key::Char('b'),
    ];
    for k in keys {
        let out = handle_key(&mut a, k, false, &l);
        assert!(out.save_theme.is_none());
    }
    assert_eq!(a.nav_idx, 9);
    let out = handle_key(&mut a, Key::Char('a'), false, &l);
    assert_eq!(out.save_theme, Some(true));
    assert_eq!(a.color_phase, 1);
    assert_eq!(a.nav_idx, 0);
}

#[test]
fn the_actions_menu_runs_the_picked_action() {
    let l = layout();
    let mut a = app();
    a.popup = Some(Popup::ActionsMenu);
    let out = handle_key(&mut a, Key::Char('C'), false, &l);
    assert!(matches!(out.request, KeyRequest::Export));
    assert!(a.popup.is_none());
    a.popup = Some(Popup::ActionsMenu);
    handle_key(&mut a, Key::Char('?'), false, &l);
    assert_eq!(a.popup, Some(Popup::Help));
}

#[test]
fn focus_right_then_left_comes_back() {
    let l = layout();
    for s in [Section::Coins, Section::Objects, Section::Transactions, Section::Packages] {
        let right = move_focus(&l.grid_boxes, s, 1, 0);
        assert_eq!(move_focus(&l.grid_boxes, right, -1, 0), s);
    }
}

#[test]
fn search_bar_typing_then_erasing_gives_it_back() {
    let l = layout();
    let mut a = app();
    a.search_focused = true;
    a.search_buffer = "0xab".to_string();
    handle_grid_key(&mut a, Key::Char('c'), false, &l);
    assert_eq!(a.search_buffer, "0xabc");
    handle_grid_key(&mut a, Key::Backspace, false, &l);
    assert_eq!(a.search_buffer, "0xab");
    handle_grid_key(&mut a, Key::Enter, false, &l);
    assert_eq!(a.exploring.as_deref(), Some("0xab"));
    assert!(!a.search_focused);
    assert!(matches!(a.outbox.last(), Some(WalletCmd::LookupAddress(q)) if q == "0xab"));
}

#[test]
fn context_menu_up_then_down_is_where_it_was() {
    let l = layout();
    let mut a = app();
    a.coins = vec![coin("IOTA", "0xc1")];
    handle_grid_key(&mut a, Key::Char('/'), false, &l);
    let before = a.context_menu.as_ref().unwrap().selected;
    handle_context_menu_key(&mut a, Key::Up);
    handle_context_menu_key(&mut a, Key::Down);
    assert_eq!(a.context_menu.as_ref().unwrap().selected, before);
}

#[test]
fn coin_filter_typing_then_erasing_gives_it_back() {
    let mut a = app();
    a.coins = vec![coin("IOTA", "0xc1")];
    handle_coins_key(&mut a, Key::Char('/'));
    handle_coins_key(&mut a, Key::Char('i'));
    handle_coins_key(&mut a, Key::Char('o'));
    handle_coins_key(&mut a, Key::Backspace);
    assert_eq!(a.coins_filter.as_deref(), Some("i"));
}

#[test]
fn the_grid_shows_only_sections_with_rows() {
    let mut a = app();
    assert!(a.visible_sections().is_empty());
    a.coins = vec![coin("IOTA", "0xc1")];
    assert_eq!(a.visible_sections(), vec![Section::Coins]);
}

#[test]
fn a_menu_opens_where_asked() {
    let mut a = app();
    iota_wallet_tui::grid_keys::open_context_menu_at(&mut a, Section::Staking, 7, 9);
    let m = a.context_menu.as_ref().unwrap();
    assert_eq!((m.section, m.anchor_row, m.anchor_col, m.selected), (Section::Staking, 7, 9, 0));
    assert_eq!(m.actions, vec![ContextAction::Unstake, ContextAction::CopyId]);
    assert_eq!(a.focused_section, Section::Staking);
}

#[test]
fn the_wheel_scrolls_popups_and_open_lists() {
    let mut a = app();
    a.popup = Some(Popup::Help);
    iota_wallet_tui::dispatch::handle_wheel(&mut a, -1);
    assert_eq!(a.popup_scroll, 0);
    iota_wallet_tui::dispatch::handle_wheel(&mut a, 1);
    assert_eq!(a.popup_scroll, 1);
    a.popup = None;
    a.coins = vec![coin("IOTA", "0xc1"), coin("IOTA", "0xc2")];
    a.section_open = Some(Section::Coins);
    a.screen = Screen::Coins;
    iota_wallet_tui::dispatch::handle_wheel(&mut a, 1);
    assert_eq!(a.coins_selected, 1);
    a.section_open = None;
    iota_wallet_tui::dispatch::handle_wheel(&mut a, -1);
    assert_eq!(a.coins_selected, 1);
}
