use iota_wallet_tui::command_form::{build_command_from_form, comma_values};
use iota_wallet_tui::common::short_type_name;
use iota_wallet_tui::details::{copy_notice, export_file_name};
use iota_wallet_tui::nav::scroll_selection;
use iota_wallet_tui::state::App;
use iota_wallet_tui::types::{
    AddCommandType, AddressEntry, CoinDisplay, ModuleFunctionDisplay, ObjectDisplay, Popup,
    PopupFocus, PtbCommand, Screen, TxBuilderStep,
};
use iota_wallet_tui::wallet::{StoredKey, WalletCmd};

fn key(alias: &str, addr: &str, active: bool) -> StoredKey {
    StoredKey {
        alias: alias.to_string(),
        scheme: "ed25519".to_string(),
        private_key_bytes: vec![1, 2],
        address: addr.to_string(),
        is_active: active,
    }
}

fn coin(symbol: &str, balance: &str, id: &str) -> CoinDisplay {
    CoinDisplay {
        coin_type: format!("0x2::x::{}", symbol),
        symbol: symbol.to_string(),
        balance: 1,
        balance_display: balance.to_string(),
        object_id: id.to_string(),
        owner_alias: "main".to_string(),
    }
}

fn app_with_book() -> App {
    App::new(
        vec![key("Alice", "0xa11ce", true), key("bob", "0xb0b", false)],
        vec![AddressEntry { label: "Alicia".to_string(), address: "0xa1c".to_string(), notes: String::new() }],
        0,
    )
}

#[test]
fn comma_values_split_and_trim() {
    assert_eq!(comma_values("a, b ,c"), vec!["a", "b", "c"]);
    assert_eq!(comma_values("one"), vec!["one"]);
    assert_eq!(comma_values("x,,y"), vec!["x", "", "y"]);
}

#[test]
fn build_transfer_resolves_alias() {
    let mut app = app_with_book();
    app.tx.adding_cmd = Some(AddCommandType::TransferIota);
    app.tx.edit_buffers = vec!["alice".to_string(), "1.5".to_string()];
    match build_command_from_form(&app) {
        Some(PtbCommand::TransferIota { recipient, amount }) => {
            assert_eq!(recipient, "0xa11ce");
            assert_eq!(amount, "1.5");
        }
        other => panic!("unexpected {:?}", other),
    }
}

#[test]
fn build_needs_fields() {
    let mut app = app_with_book();
    assert!(build_command_from_form(&app).is_none());
    app.tx.adding_cmd = Some(AddCommandType::TransferIota);
    app.tx.edit_buffers = vec!["0xdead".to_string(), String::new()];
    assert!(build_command_from_form(&app).is_none());
    app.tx.adding_cmd = Some(AddCommandType::MergeCoins);
    app.tx.edit_buffers = vec!["0xc1".to_string(), String::new()];
    assert!(build_command_from_form(&app).is_none());
}

#[test]
fn build_move_call_lists() {
    let mut app = app_with_book();
    app.tx.adding_cmd = Some(AddCommandType::MoveCall);
    app.tx.edit_buffers = vec![
        "0x2".to_string(),
        "coin".to_string(),
        "split".to_string(),
        String::new(),
        "0x5, 10".to_string(),
    ];
    match build_command_from_form(&app) {
        Some(PtbCommand::MoveCall { package, module, function, type_args, args }) => {
            assert_eq!(package, "0x2");
            assert_eq!(module, "coin");
            assert_eq!(function, "split");
            assert!(type_args.is_empty());
            assert_eq!(args, vec!["0x5", "10"]);
        }
        other => panic!("unexpected {:?}", other),
    }
}

#[test]
fn build_merge_uses_picked_coins() {
    let mut app = app_with_book();
    app.tx.adding_cmd = Some(AddCommandType::MergeCoins);
    app.tx.edit_buffers = vec!["0xc1".to_string(), String::new()];
    app.tx.multi_values = vec!["0xc2".to_string(), "0xc3".to_string()];
    match build_command_from_form(&app) {
        Some(PtbCommand::MergeCoins { primary, sources }) => {
            assert_eq!(primary, "0xc1");
            assert_eq!(sources, vec!["0xc2", "0xc3"]);
        }
        other => panic!("unexpected {:?}", other),
    }
}

#[test]
fn build_split_takes_the_amounts_added_one_at_a_time() {
    let mut app = app_with_book();
    app.tx.adding_cmd = Some(AddCommandType::SplitCoins);
    app.tx.edit_buffers = vec!["0xc0".to_string(), String::new()];
    app.tx.multi_values = vec!["100".to_string(), "200".to_string()];
    match build_command_from_form(&app) {
        Some(PtbCommand::SplitCoins { coin, amounts }) => {
            assert_eq!(coin, "0xc0");
            assert_eq!(amounts, vec!["100", "200"]);
        }
        other => panic!("unexpected {:?}", other),
    }
    app.tx.multi_values = vec![];
    assert!(build_command_from_form(&app).is_none());
    app.tx.edit_buffers = vec!["0xc0".to_string(), "1, 2".to_string()];
    match build_command_from_form(&app) {
        Some(PtbCommand::SplitCoins { amounts, .. }) => assert_eq!(amounts, vec!["1", "2"]),
        other => panic!("unexpected {:?}", other),
    }
}

#[test]
fn autocomplete_suggests_keys_and_labels() {
    let mut app = app_with_book();
    app.tx.adding_cmd = Some(AddCommandType::TransferIota);
    app.tx.edit_field = 0;
    app.start_input("ALI");
    app.update_autocomplete();
    assert_eq!(
        app.autocomplete,
        vec![("Alice".to_string(), "0xa11ce".to_string()), ("Alicia".to_string(), "0xa1c".to_string())]
    );
    app.autocomplete_idx = Some(1);
    assert!(app.accept_autocomplete());
    assert_eq!(app.input_buffer, "Alicia");
    assert_eq!(app.input_cursor, 6);
    assert!(app.autocomplete.is_empty());
    assert_eq!(app.autocomplete_idx, None);
}

#[test]
fn autocomplete_skips_hex_addresses() {
    let mut app = app_with_book();
    app.tx.adding_cmd = Some(AddCommandType::TransferIota);
    app.start_input("0xa");
    app.update_autocomplete();
    assert!(app.autocomplete.is_empty());
    assert!(!app.accept_autocomplete());
}

#[test]
fn autocomplete_coins_for_merge() {
    let mut app = app_with_book();
    app.coins = vec![coin("IOTA", "1.50", "0xc1"), coin("USDC", "2.00", "0xc2"), coin("IOTA", "3.00", "0xc3")];
    app.tx.adding_cmd = Some(AddCommandType::MergeCoins);
    app.tx.edit_field = 1;
    app.tx.multi_values = vec!["0xc1".to_string()];
    app.start_input("iota");
    app.update_autocomplete();
    assert_eq!(app.autocomplete, vec![("IOTA (3.00)".to_string(), "0xc3".to_string())]);
    assert!(app.accept_autocomplete());
    assert_eq!(app.tx.multi_values, vec!["0xc1", "0xc3"]);
    assert_eq!(app.input_buffer, "");
    app.remove_last_multi_value();
    assert_eq!(app.tx.multi_values, vec!["0xc1"]);
}

#[test]
fn autocomplete_objects_show_short_type() {
    let mut app = app_with_book();
    app.objects = vec![ObjectDisplay {
        object_id: "0x1234567890abcdef".to_string(),
        object_type: "0x2::nft::Ticket".to_string(),
        version: "v1".to_string(),
        digest: "d".to_string(),
        owner: "0xa11ce".to_string(),
        owner_alias: "Alice".to_string(),
    }];
    app.tx.adding_cmd = Some(AddCommandType::Unstake);
    app.start_input("ticket");
    app.update_autocomplete();
    assert_eq!(
        app.autocomplete,
        vec![("Ticket 0x1234567890".to_string(), "0x1234567890abcdef".to_string())]
    );
}

#[test]
fn address_completion_ignores_object_ids_it_never_cuts() {
    let mut app = app_with_book();
    // byte 12 of this id falls inside the two-byte 'é'
    app.objects = vec![ObjectDisplay {
        object_id: "0x123456789éab".to_string(),
        object_type: "0x2::nft::Ticket".to_string(),
        version: "v1".to_string(),
        digest: "d".to_string(),
        owner: "0xa11ce".to_string(),
        owner_alias: "Alice".to_string(),
    }];
    app.tx.adding_cmd = Some(AddCommandType::TransferIota);
    app.tx.edit_field = 0;
    app.start_input("bo");
    app.update_autocomplete();
    assert_eq!(app.autocomplete, vec![("bob".to_string(), "0xb0b".to_string())]);
}

#[test]
fn quick_transfer_recipient_completes() {
    let mut app = app_with_book();
    app.popup = Some(Popup::QuickTransfer);
    app.popup_focus = PopupFocus::Fields;
    app.quick_transfer_field = 0;
    app.start_input("bo");
    app.update_autocomplete();
    assert_eq!(app.autocomplete, vec![("bob".to_string(), "0xb0b".to_string())]);
}

#[test]
fn detail_info_for_keys() {
    let mut app = app_with_book();
    app.screen = Screen::Keys;
    app.keys_selected = 1;
    let (title, lines) = app.detail_info();
    assert_eq!(title, "Key Details");
    assert_eq!(lines.len(), 4);
    assert_eq!(lines[3], ("Active", "No".to_string()));
    app.keys_show_private = true;
    assert_eq!(app.detail_info().1.len(), 5);
}

#[test]
fn detail_info_for_address_book() {
    let mut app = app_with_book();
    app.screen = Screen::AddressBook;
    app.address_selected = 0;
    let (_, lines) = app.detail_info();
    assert_eq!(lines[0], ("Label", "Alice (key)".to_string()));
    app.address_selected = 2;
    let (_, lines) = app.detail_info();
    assert_eq!(lines[0], ("Label", "Alicia".to_string()));
    app.address_selected = 3;
    assert!(app.detail_info().1.is_empty());
}

#[test]
fn detail_info_coin_raw_balance() {
    let mut app = app_with_book();
    app.coins = vec![coin("IOTA", "0.00", "0xc1")];
    let (title, lines) = app.detail_info();
    assert_eq!(title, "Coin Details");
    assert_eq!(lines[3], ("Raw Balance", "1".to_string()));
    assert_eq!(lines.len(), 6);
}

#[test]
fn copy_text_and_notice() {
    let mut app = app_with_book();
    app.screen = Screen::Keys;
    assert_eq!(app.copy_text(), Some("0xa11ce".to_string()));
    app.screen = Screen::TxBuilder;
    assert_eq!(app.copy_text(), None);
    assert_eq!(copy_notice("short"), "Copied: short");
    assert_eq!(copy_notice("0x1234567890abcdef1234567890"), "Copied: 0x12345678..1234567890");
}

#[test]
fn export_content_and_name() {
    let mut app = app_with_book();
    app.screen = Screen::Keys;
    assert_eq!(
        app.export_content(),
        Some("Alias,Address,Scheme,Active\nAlice,0xa11ce,ed25519,true\nbob,0xb0b,ed25519,false\n".to_string())
    );
    app.screen = Screen::Explorer;
    assert_eq!(app.export_content(), None);
    assert_eq!(export_file_name(Screen::AddressBook, 42), "iota-export-address-book-42.csv");
}

#[test]
fn jump_to_move_call_fills_builder() {
    let mut app = app_with_book();
    app.pkg_selected_id = "0x2".to_string();
    app.pkg_selected_module = "coin".to_string();
    app.pkg_functions = vec![ModuleFunctionDisplay {
        name: "split".to_string(),
        visibility: "public".to_string(),
        is_entry: true,
        type_param_count: 1,
        param_types: vec!["u64".to_string(), "u64".to_string()],
        return_types: vec![],
    }];
    app.jump_to_move_call();
    assert_eq!(app.screen, Screen::TxBuilder);
    assert!(app.tx_builder_open);
    assert_eq!(app.tx.step, TxBuilderStep::EditCommands);
    match &app.tx.commands[0] {
        PtbCommand::MoveCall { package, function, type_args, args, .. } => {
            assert_eq!(package, "0x2");
            assert_eq!(function, "split");
            assert_eq!(type_args.len(), 1);
            assert_eq!(args.len(), 2);
        }
        other => panic!("unexpected {:?}", other),
    }
}

#[test]
fn activate_key_makes_it_the_only_active() {
    let mut app = app_with_book();
    app.keys_selected = 1;
    app.activate_selected_key();
    assert!(!app.keys[0].is_active);
    assert!(app.keys[1].is_active);
    assert!(matches!(app.outbox[0], WalletCmd::SetActiveKey(1)));
}

#[test]
fn activate_address_explores_it() {
    let mut app = app_with_book();
    app.address_selected = 2;
    app.activate_selected_address();
    assert_eq!(app.screen, Screen::Explorer);
    assert_eq!(app.exploring, Some("0xa1c".to_string()));
}

#[test]
fn scroll_selection_moves_coin_cursor() {
    let mut app = app_with_book();
    app.coins = vec![coin("A", "1", "0x1"), coin("B", "1", "0x2"), coin("C", "1", "0x3")];
    app.content_visible_rows = 2;
    scroll_selection(&mut app, 2);
    assert_eq!(app.coins_selected, 2);
    assert_eq!(app.coins_offset, 1);
    scroll_selection(&mut app, -5);
    assert_eq!(app.coins_selected, 0);
    assert_eq!(app.coins_offset, 0);
}

#[test]
fn short_names_used_in_labels() {
    assert_eq!(short_type_name("0x2::nft::Ticket"), "Ticket");
}
