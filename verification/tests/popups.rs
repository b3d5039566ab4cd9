use iota_wallet_tui::command_form::handle_command_form_key;
use iota_wallet_tui::keys::{handle_button_focus_key, handle_input_key, Key};
use iota_wallet_tui::popup_keys::handle_popup_key;
use iota_wallet_tui::state::App;
use iota_wallet_tui::types::{AddCommandType, AddressEntry, InputMode, Popup, PopupFocus, PtbCommand, Screen};
use iota_wallet_tui::wallet::{StoredKey, WalletCmd};

fn key(alias: &str, addr: &str, active: bool) -> StoredKey {
    StoredKey {
        alias: alias.to_string(),
        scheme: "ed25519".to_string(),
        private_key_bytes: vec![],
        address: addr.to_string(),
        is_active: active,
    }
}

fn app() -> App {
    App::new(
        vec![key("main", "0xaaa", true), key("spare", "0xbbb", false)],
        vec![AddressEntry { label: "shop".to_string(), address: "0x5".to_string(), notes: String::new() }],
        0,
    )
}

#[test]
fn input_keys_edit_text() {
    let mut a = app();
    a.start_input("abc");
    handle_input_key(&mut a, Key::Home);
    assert_eq!(a.input_cursor, 0);
    handle_input_key(&mut a, Key::Char('x'));
    assert_eq!(a.input_buffer, "xabc");
    handle_input_key(&mut a, Key::Delete);
    assert_eq!(a.input_buffer, "xbc");
    handle_input_key(&mut a, Key::End);
    assert_eq!(a.input_cursor, 3);
    handle_input_key(&mut a, Key::Backspace);
    assert_eq!(a.input_buffer, "xb");
    handle_input_key(&mut a, Key::Up);
    assert_eq!(a.input_buffer, "xb");
}

#[test]
fn buttons_move_with_arrows() {
    let mut a = app();
    a.popup_focus = PopupFocus::Fields;
    assert!(!handle_button_focus_key(&mut a, Key::Right));
    a.popup_focus = PopupFocus::Submit;
    assert!(handle_button_focus_key(&mut a, Key::Right));
    assert_eq!(a.popup_focus, PopupFocus::Cancel);
    assert!(handle_button_focus_key(&mut a, Key::Left));
    assert_eq!(a.popup_focus, PopupFocus::Submit);
    assert!(!handle_button_focus_key(&mut a, Key::Tab));
}

#[test]
fn help_popup_scrolls_and_closes() {
    let mut a = app();
    a.open_popup(Popup::Help);
    handle_popup_key(&mut a, Key::PageDown);
    assert_eq!(a.popup_scroll, 5);
    handle_popup_key(&mut a, Key::Up);
    assert_eq!(a.popup_scroll, 4);
    handle_popup_key(&mut a, Key::PageUp);
    assert_eq!(a.popup_scroll, 0);
    handle_popup_key(&mut a, Key::Char('q'));
    assert_eq!(a.popup, None);
}

#[test]
fn error_log_ignores_enter() {
    let mut a = app();
    a.open_popup(Popup::ErrorLog);
    handle_popup_key(&mut a, Key::Enter);
    assert_eq!(a.popup, Some(Popup::ErrorLog));
    handle_popup_key(&mut a, Key::Esc);
    assert_eq!(a.popup, None);
}

#[test]
fn quit_confirmation() {
    let mut a = app();
    a.open_popup(Popup::ConfirmQuit);
    handle_popup_key(&mut a, Key::Char('x'));
    assert!(a.running);
    handle_popup_key(&mut a, Key::Char('y'));
    assert!(!a.running);
}

#[test]
fn delete_saved_address() {
    let mut a = app();
    a.address_selected = 2;
    a.open_popup(Popup::ConfirmDeleteAddress);
    handle_popup_key(&mut a, Key::Enter);
    assert!(a.address_book.is_empty());
    assert_eq!(a.address_selected, 1);
    assert!(a.address_book_dirty);
    assert_eq!(a.popup, None);
}

#[test]
fn deleting_a_key_row_in_book_does_nothing() {
    let mut a = app();
    a.address_selected = 0;
    a.open_popup(Popup::ConfirmDeleteAddress);
    handle_popup_key(&mut a, Key::Char('y'));
    assert_eq!(a.address_book.len(), 1);
    assert!(!a.address_book_dirty);
}

#[test]
fn delete_active_key_promotes_first() {
    let mut a = app();
    a.keys_selected = 0;
    a.open_popup(Popup::ConfirmDeleteKey);
    handle_popup_key(&mut a, Key::Enter);
    assert_eq!(a.keys.len(), 1);
    assert!(a.keys[0].is_active);
    assert!(matches!(a.outbox[0], WalletCmd::DeleteKey(0)));
    assert!(matches!(a.outbox[1], WalletCmd::SetActiveKey(0)));
    assert!(a.loading);
    assert_eq!(a.popup, None);
}

#[test]
fn delete_last_inactive_key_moves_selection() {
    let mut a = app();
    a.keys_selected = 1;
    a.open_popup(Popup::ConfirmDeleteKey);
    handle_popup_key(&mut a, Key::Char('y'));
    assert_eq!(a.keys.len(), 1);
    assert_eq!(a.keys_selected, 0);
    assert_eq!(a.outbox.len(), 1);
}

#[test]
fn add_command_opens_form() {
    let mut a = app();
    a.open_popup(Popup::AddCommand);
    handle_popup_key(&mut a, Key::Char('3'));
    assert_eq!(a.popup, Some(Popup::AddCommandForm));
    assert_eq!(a.tx.adding_cmd, Some(AddCommandType::MoveCall));
    assert_eq!(a.tx.edit_buffers.len(), 5);
    assert_eq!(a.input_mode, InputMode::Editing);
}

#[test]
fn generate_key_proposes_alias() {
    let mut a = app();
    a.open_popup(Popup::GenerateKey);
    handle_popup_key(&mut a, Key::Char('s'));
    assert_eq!(a.popup, Some(Popup::GenerateKeyAlias));
    assert_eq!(a.keys_gen_scheme, Some("secp256k1".to_string()));
    assert_eq!(a.input_buffer, "key-2");
    handle_popup_key(&mut a, Key::Enter);
    assert_eq!(a.popup_focus, PopupFocus::Submit);
    handle_popup_key(&mut a, Key::Enter);
    assert_eq!(a.popup, None);
    match a.outbox.last() {
        Some(WalletCmd::GenerateKey { scheme, alias }) => {
            assert_eq!(scheme, "secp256k1");
            assert_eq!(alias, "key-2");
        }
        other => panic!("unexpected {:?}", other),
    }
}

#[test]
fn import_key_submits_hex() {
    let mut a = app();
    a.open_popup(Popup::ImportKey);
    a.start_input("00ff");
    a.popup_focus = PopupFocus::Submit;
    handle_popup_key(&mut a, Key::Enter);
    match a.outbox.last() {
        Some(WalletCmd::ImportKey { scheme, private_key_hex, alias }) => {
            assert_eq!(scheme, "ed25519");
            assert_eq!(private_key_hex, "00ff");
            assert_eq!(alias, "imported-2");
        }
        other => panic!("unexpected {:?}", other),
    }
}

#[test]
fn rename_key_changes_alias() {
    let mut a = app();
    a.keys_selected = 1;
    a.open_popup(Popup::RenameKey);
    a.start_input("backup");
    a.popup_focus = PopupFocus::Submit;
    handle_popup_key(&mut a, Key::Enter);
    assert_eq!(a.keys[1].alias, "backup");
    assert!(matches!(a.outbox.last(), Some(WalletCmd::RenameKey { idx: 1, .. })));
}

#[test]
fn line_popup_focus_cycles() {
    let mut a = app();
    a.open_popup(Popup::LookupIotaName);
    a.start_input("");
    handle_popup_key(&mut a, Key::Tab);
    assert_eq!(a.popup_focus, PopupFocus::Submit);
    handle_popup_key(&mut a, Key::Tab);
    assert_eq!(a.popup_focus, PopupFocus::Cancel);
    handle_popup_key(&mut a, Key::BackTab);
    assert_eq!(a.popup_focus, PopupFocus::Submit);
    handle_popup_key(&mut a, Key::Esc);
    assert_eq!(a.popup_focus, PopupFocus::Fields);
    handle_popup_key(&mut a, Key::Esc);
    assert_eq!(a.popup, None);
}

#[test]
fn switch_network_connects() {
    let mut a = app();
    a.connected = true;
    a.open_popup(Popup::SwitchNetwork);
    handle_popup_key(&mut a, Key::Char('2'));
    assert!(!a.connected);
    assert_eq!(a.network_name, "testnet...");
    assert!(a.loading);
    assert!(matches!(a.outbox.last(), Some(WalletCmd::Connect(_))));
}

#[test]
fn address_form_adds_entry() {
    let mut a = app();
    a.open_popup(Popup::AddAddress);
    a.address_edit_field = 0;
    a.start_input("friend");
    handle_popup_key(&mut a, Key::Tab);
    assert_eq!(a.address_edit_field, 1);
    a.start_input("0x123");
    handle_popup_key(&mut a, Key::Enter);
    assert_eq!(a.address_edit_field, 2);
    handle_popup_key(&mut a, Key::Enter);
    assert_eq!(a.popup_focus, PopupFocus::Submit);
    handle_popup_key(&mut a, Key::Enter);
    assert_eq!(a.popup, None);
    assert_eq!(a.address_book.len(), 2);
    assert_eq!(a.address_book[1].label, "friend");
    assert_eq!(a.address_book[1].address, "0x123");
    assert!(a.address_book_dirty);
}

#[test]
fn address_form_name_lookup() {
    let mut a = app();
    a.open_popup(Popup::AddAddress);
    a.address_edit_buffers = ["bob".to_string(), "bob.iota".to_string(), String::new()];
    a.address_edit_field = 2;
    a.start_input("");
    a.popup_focus = PopupFocus::Submit;
    handle_popup_key(&mut a, Key::Enter);
    assert_eq!(a.address_book.len(), 1);
    assert!(matches!(a.outbox.last(), Some(WalletCmd::LookupIotaName { .. })));
}

#[test]
fn actions_menu_picks_hint() {
    let mut a = app();
    a.screen = Screen::Explorer;
    a.open_popup(Popup::ActionsMenu);
    a.action_menu_selected = 0;
    assert_eq!(handle_popup_key(&mut a, Key::Down), None);
    assert_eq!(a.action_menu_selected, 1);
    assert_eq!(handle_popup_key(&mut a, Key::Enter), Some("refresh"));
    assert_eq!(a.popup, None);
    a.open_popup(Popup::ActionsMenu);
    assert_eq!(handle_popup_key(&mut a, Key::Char('?')), Some("help"));
    a.open_popup(Popup::ActionsMenu);
    assert_eq!(handle_popup_key(&mut a, Key::Char('z')), None);
    assert_eq!(a.popup, Some(Popup::ActionsMenu));
}

#[test]
fn command_form_builds_transfer() {
    let mut a = app();
    a.open_popup(Popup::AddCommand);
    handle_popup_key(&mut a, Key::Char('t'));
    for c in "spare".chars() {
        handle_command_form_key(&mut a, Key::Char(c));
    }
    assert_eq!(a.autocomplete, vec![("spare".to_string(), "0xbbb".to_string())]);
    handle_command_form_key(&mut a, Key::Esc);
    assert_eq!(a.popup, None);
}

#[test]
fn command_form_enter_adds_command() {
    let mut a = app();
    a.open_popup(Popup::AddCommand);
    handle_popup_key(&mut a, Key::Char('u'));
    for c in "0x77".chars() {
        handle_popup_key(&mut a, Key::Char(c));
    }
    handle_popup_key(&mut a, Key::Enter);
    assert_eq!(a.popup, None);
    assert_eq!(a.tx.commands.len(), 1);
    assert!(matches!(&a.tx.commands[0], PtbCommand::Unstake { staked_iota_id } if staked_iota_id == "0x77"));
    assert!(a.tx.dry_run_dirty);
}

#[test]
fn command_form_tab_moves_fields() {
    let mut a = app();
    a.open_popup(Popup::AddCommand);
    handle_popup_key(&mut a, Key::Char('k'));
    for c in "5".chars() {
        handle_popup_key(&mut a, Key::Char(c));
    }
    handle_popup_key(&mut a, Key::Tab);
    assert_eq!(a.tx.edit_field, 1);
    assert_eq!(a.tx.edit_buffers[0], "5");
    assert_eq!(a.input_buffer, "");
}
