use iota_wallet_tui::hints::{handle_hint_click, HintRequest};
use iota_wallet_tui::state::App;
use iota_wallet_tui::types::{
    CoinDisplay, InputMode, PackageBrowserView, Popup, PtbCommand, Screen, StakeDisplay,
    TxBuilderStep,
};
use iota_wallet_tui::wallet::{StoredKey, WalletCmd};

fn stored(alias: &str, addr: &str, active: bool) -> StoredKey {
    StoredKey {
        alias: alias.to_string(),
        scheme: "ed25519".to_string(),
        private_key_bytes: vec![],
        address: addr.to_string(),
        is_active: active,
    }
}

fn app() -> App {
    App::new(vec![stored("main", "0xaaa", true), stored("spare", "0xbbb", false)], vec![], 0)
}

fn coin(id: &str) -> CoinDisplay {
    CoinDisplay {
        coin_type: "0x2::iota::IOTA".to_string(),
        symbol: "IOTA".to_string(),
        balance: 5,
        balance_display: "0.000000005".to_string(),
        object_id: id.to_string(),
        owner_alias: "main".to_string(),
    }
}

fn transfer(amount: &str) -> PtbCommand {
    PtbCommand::TransferIota { recipient: "0x1".to_string(), amount: amount.to_string() }
}

#[test]
fn copy_export_and_faucet_are_left_to_the_caller() {
    let mut a = app();
    assert!(matches!(handle_hint_click(&mut a, "copy"), HintRequest::Copy));
    assert!(matches!(handle_hint_click(&mut a, "export"), HintRequest::Export));
    assert!(matches!(handle_hint_click(&mut a, "faucet"), HintRequest::Faucet(addr) if addr == "0xaaa"));
    assert!(a.popup.is_none());
    assert!(a.outbox.is_empty());
}

#[test]
fn menu_help_and_network_open_their_popups() {
    let mut a = app();
    a.action_menu_selected = 3;
    assert!(matches!(handle_hint_click(&mut a, "open_menu"), HintRequest::Done));
    assert_eq!(a.popup, Some(Popup::ActionsMenu));
    assert_eq!(a.action_menu_selected, 0);
    handle_hint_click(&mut a, "help");
    assert_eq!(a.popup, Some(Popup::Help));
    handle_hint_click(&mut a, "network");
    assert_eq!(a.popup, Some(Popup::SwitchNetwork));
}

#[test]
fn unknown_hints_change_nothing() {
    let mut a = app();
    assert!(matches!(handle_hint_click(&mut a, "no_such_hint"), HintRequest::Done));
    assert!(a.popup.is_none());
    assert_eq!(a.input_mode, InputMode::Normal);
}

#[test]
fn filter_opens_an_empty_filter_on_the_list() {
    let mut a = app();
    a.screen = Screen::Objects;
    a.objects_selected = 4;
    handle_hint_click(&mut a, "filter");
    assert_eq!(a.objects_filter.as_deref(), Some(""));
    assert_eq!(a.objects_selected, 0);
    a.screen = Screen::Keys;
    handle_hint_click(&mut a, "filter");
    assert!(a.coins_filter.is_none());
}

#[test]
fn rename_and_split_open_an_input_with_text() {
    let mut a = app();
    a.keys_selected = 1;
    handle_hint_click(&mut a, "key_rename");
    assert_eq!(a.popup, Some(Popup::RenameKey));
    assert_eq!(a.input_mode, InputMode::Editing);
    assert_eq!(a.input_buffer, "spare");
    assert_eq!(a.input_cursor, 5);

    let mut b = app();
    handle_hint_click(&mut b, "split");
    assert!(b.popup.is_none());
    b.coins = vec![coin("0xc1")];
    handle_hint_click(&mut b, "split");
    assert_eq!(b.popup, Some(Popup::SplitCoin));
    assert_eq!(b.input_buffer, "2");
    assert_eq!(b.input_cursor, 1);
}

#[test]
fn add_address_opens_a_blank_form() {
    let mut a = app();
    a.address_edit_field = 2;
    a.address_edit_buffers = ["x".to_string(), "y".to_string(), "z".to_string()];
    handle_hint_click(&mut a, "addr_add");
    assert_eq!(a.popup, Some(Popup::AddAddress));
    assert_eq!(a.address_edit_field, 0);
    assert!(a.address_edit_buffers.iter().all(|b| b.is_empty()));
    assert_eq!(a.input_mode, InputMode::Editing);
}

#[test]
fn deleting_the_last_command_steps_the_selection_back() {
    let mut a = app();
    a.tx.commands = vec![transfer("1"), transfer("2")];
    a.tx.cmd_selected = 1;
    a.tx.dry_run_dirty = false;
    handle_hint_click(&mut a, "tx_delete");
    assert_eq!(a.tx.commands.len(), 1);
    assert_eq!(a.tx.cmd_selected, 0);
    assert!(a.tx.dry_run_dirty);
    handle_hint_click(&mut a, "tx_clear");
    assert_eq!(a.popup, Some(Popup::ConfirmClearTx));
}

#[test]
fn clearing_an_empty_builder_resets_it() {
    let mut a = app();
    a.tx.gas_budget = "5".to_string();
    handle_hint_click(&mut a, "tx_clear");
    assert_eq!(a.tx.gas_budget, "10000000");
    assert!(a.popup.is_none());
}

#[test]
fn unstake_builds_a_reviewed_transaction_and_dry_runs_it() {
    let mut a = app();
    a.stakes = vec![StakeDisplay {
        object_id: "0xstake".to_string(),
        principal: "1".to_string(),
        principal_display: "1".to_string(),
        validator_address: "0xval".to_string(),
        activation_epoch: "1".to_string(),
        status: "Active".to_string(),
    }];
    handle_hint_click(&mut a, "unstake");
    assert_eq!(a.screen, Screen::TxBuilder);
    assert_eq!(a.tx.step, TxBuilderStep::Review);
    assert!(a.tx.dry_running);
    assert!(!a.tx.dry_run_dirty);
    assert!(matches!(&a.tx.commands[..], [PtbCommand::Unstake { staked_iota_id }] if staked_iota_id == "0xstake"));
    assert!(matches!(
        a.outbox.last(),
        Some(WalletCmd::DryRun { sender_idx: 0, commands }) if commands.len() == 1
    ));
}

#[test]
fn explore_and_type_search_use_the_selected_coin() {
    let mut a = app();
    a.coins = vec![coin("0xc1"), coin("0xc2")];
    a.coins_selected = 1;
    handle_hint_click(&mut a, "explore");
    assert_eq!(a.screen, Screen::Explorer);
    assert!(matches!(a.outbox.last(), Some(WalletCmd::LookupAddress(q)) if q == "0xc2"));

    let mut b = app();
    b.coins = vec![coin("0xc1")];
    handle_hint_click(&mut b, "type_search");
    assert!(b.explorer.search_mode);
    assert_eq!(b.explorer.search_type, "0x2::iota::IOTA");
}

#[test]
fn package_browser_back_goes_up_one_level() {
    let mut a = app();
    a.pkg_view = PackageBrowserView::Functions;
    handle_hint_click(&mut a, "pkg_back");
    assert_eq!(a.pkg_view, PackageBrowserView::Modules);
    handle_hint_click(&mut a, "pkg_back");
    assert_eq!(a.pkg_view, PackageBrowserView::List);
    handle_hint_click(&mut a, "pkg_back");
    assert_eq!(a.pkg_view, PackageBrowserView::List);
}

#[test]
fn hiding_a_key_refreshes() {
    let mut a = app();
    handle_hint_click(&mut a, "key_visible");
    assert!(!a.keys[0].visible);
    assert!(a.loading);
    assert!(!a.outbox.is_empty());
}

#[test]
fn explorer_search_opens_the_input_line() {
    let mut a = app();
    handle_hint_click(&mut a, "explorer_search");
    assert_eq!(a.input_mode, InputMode::Editing);
    assert_eq!(a.input_buffer, "");
}
