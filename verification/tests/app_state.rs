use iota_wallet_tui::state::App;
use iota_wallet_tui::types::{AddressEntry, Popup, Screen, Section};
use iota_wallet_tui::wallet::{BalanceInfo, CoinInfo, ObjectInfo, StoredKey, WalletCmd, WalletEvent};

fn key(alias: &str, addr: &str, active: bool, bytes: Vec<u8>) -> StoredKey {
    StoredKey {
        alias: alias.to_string(),
        scheme: "ed25519".to_string(),
        private_key_bytes: bytes,
        address: addr.to_string(),
        is_active: active,
    }
}

fn one_key_app() -> App {
    App::new(vec![key("main", "0xaaa", true, vec![0xab, 0x01])], vec![], 0)
}

#[test]
fn new_app_shows_keys_with_hex_private_keys() {
    let app = one_key_app();
    assert!(app.running);
    assert_eq!(app.screen, Screen::Coins);
    assert_eq!(app.network_name, "disconnected");
    assert_eq!(app.keys.len(), 1);
    assert_eq!(app.keys[0].private_key_hex, "ab01");
    assert!(app.keys[0].is_active);
    assert!(app.keys[0].visible);
    assert!(app.outbox.is_empty());
}

#[test]
fn visible_keys_and_active_key() {
    let app = App::new(
        vec![key("a", "0x1", false, vec![]), key("b", "0x2", true, vec![])],
        vec![],
        0,
    );
    assert_eq!(app.visible_key_count(), 2);
    assert!(app.show_multiple_owners());
    assert_eq!(app.active_key().map(|k| k.alias.clone()), Some("b".to_string()));
    assert_eq!(app.key_entry_count(), 2);
}

#[test]
fn connected_event_refreshes_and_requeries() {
    let mut app = one_key_app();
    app.handle_wallet_event(WalletEvent::Connected("testnet".to_string()));
    assert!(app.connected);
    assert_eq!(app.network_name, "testnet");
    assert!(app.loading);
    assert!(app.outbox.iter().any(|c| matches!(c, WalletCmd::RefreshBalances(a) if a == "0xaaa")));
    assert!(matches!(app.outbox.last(), Some(WalletCmd::RefreshNetworkOverview)));
}

#[test]
fn balances_event_single_account_takes_last_iota_balance() {
    let mut app = one_key_app();
    app.loading = true;
    app.handle_wallet_event(WalletEvent::Balances(vec![
        BalanceInfo { coin_type: "0x2::iota::IOTA".to_string(), total_balance: 5 },
        BalanceInfo { coin_type: "0x9::usdc::USDC".to_string(), total_balance: 7 },
        BalanceInfo { coin_type: "0x2::iota::IOTA".to_string(), total_balance: 9 },
    ]));
    assert_eq!(app.total_balance_iota, 9);
    assert!(!app.loading);
}

#[test]
fn balances_event_several_accounts_adds_up() {
    let mut app = App::new(
        vec![key("a", "0x1", true, vec![]), key("b", "0x2", false, vec![])],
        vec![],
        0,
    );
    app.total_balance_iota = 1;
    app.handle_wallet_event(WalletEvent::Balances(vec![
        BalanceInfo { coin_type: "0x2::iota::IOTA".to_string(), total_balance: 5 },
        BalanceInfo { coin_type: "0x2::iota::IOTA".to_string(), total_balance: 9 },
    ]));
    assert_eq!(app.total_balance_iota, 15);
}

#[test]
fn coins_event_builds_rows() {
    let mut app = one_key_app();
    app.coins_selected = 7;
    app.handle_wallet_event(WalletEvent::Coins {
        coins: vec![CoinInfo {
            coin_type: "0x2::iota::IOTA".to_string(),
            symbol: "IOTA".to_string(),
            balance: 1_500_000_000,
            object_id: "0xc0".to_string(),
        }],
        owner_alias: "main".to_string(),
    });
    assert_eq!(app.coins.len(), 1);
    assert_eq!(app.coins[0].balance_display, "1.50");
    assert_eq!(app.coins[0].owner_alias, "main");
    assert_eq!(app.coins_selected, 0);
}

#[test]
fn objects_event_formats_versions() {
    let mut app = one_key_app();
    app.handle_wallet_event(WalletEvent::Objects {
        objects: vec![
            ObjectInfo {
                object_id: "0x1".to_string(),
                object_type: "0x2::coin::Coin".to_string(),
                version: Some(12),
                digest: "d".to_string(),
                owner: "0xaaa".to_string(),
            },
            ObjectInfo {
                object_id: "0x2".to_string(),
                object_type: "package".to_string(),
                version: None,
                digest: "e".to_string(),
                owner: "0xaaa".to_string(),
            },
        ],
        owner_alias: "main".to_string(),
    });
    assert_eq!(app.objects.len(), 2);
    assert_eq!(app.objects[0].version, "v12");
    assert_eq!(app.objects[1].version, "?");
}

#[test]
fn first_key_closes_welcome_and_refreshes() {
    let mut app = App::new(vec![], vec![], 0);
    app.popup = Some(Popup::Welcome);
    app.handle_wallet_event(WalletEvent::KeyGenerated {
        alias: "k".to_string(),
        address: "0xbbb".to_string(),
        scheme: "ed25519".to_string(),
        private_key_hex: "00".to_string(),
    });
    assert_eq!(app.keys.len(), 1);
    assert!(app.keys[0].is_active);
    assert_eq!(app.popup, None);
    assert!(app.loading);
    assert!(!app.outbox.is_empty());
}

#[test]
fn second_key_is_inactive() {
    let mut app = one_key_app();
    app.handle_wallet_event(WalletEvent::KeyImported {
        alias: "k2".to_string(),
        address: "0xccc".to_string(),
        scheme: "ed25519".to_string(),
        private_key_hex: "01".to_string(),
    });
    assert_eq!(app.keys.len(), 2);
    assert!(!app.keys[1].is_active);
    assert!(app.outbox.is_empty());
}

#[test]
fn submitted_transaction_resets_builder() {
    let mut app = one_key_app();
    app.tx_builder_open = true;
    app.tx.gas_budget = "5".to_string();
    app.handle_wallet_event(WalletEvent::TxSubmitted { digest: "abc".to_string() });
    assert!(!app.tx_builder_open);
    assert_eq!(app.section_open, Some(Section::Transactions));
    assert_eq!(app.tx.gas_budget, "10000000");
    assert!(app.tx.commands.is_empty());
}

#[test]
fn name_resolved_adds_address_entry() {
    let mut app = one_key_app();
    app.handle_wallet_event(WalletEvent::IotaNameResolved {
        name: "alice.iota".to_string(),
        label: String::new(),
        notes: String::new(),
        address: Some("0xa11ce".to_string()),
    });
    assert_eq!(app.address_book.len(), 1);
    assert_eq!(app.address_book[0].label, "alice.iota");
    assert_eq!(app.address_book[0].notes, "IOTA-Name");
    assert!(app.address_book_dirty);
    let mut app2 = one_key_app();
    app2.handle_wallet_event(WalletEvent::IotaNameResolved {
        name: "bob.iota".to_string(),
        label: "Bob".to_string(),
        notes: "friend".to_string(),
        address: None,
    });
    assert!(app2.address_book.is_empty());
    assert!(!app2.address_book_dirty);
}

#[test]
fn input_editing_roundtrip() {
    let mut app = one_key_app();
    app.start_input("ab");
    app.input_insert('é');
    assert_eq!(app.input_buffer, "abé");
    assert_eq!(app.input_cursor, 4);
    app.input_backspace();
    assert_eq!(app.input_buffer, "ab");
    app.input_left();
    app.input_insert('x');
    assert_eq!(app.input_buffer, "axb");
    assert_eq!(app.stop_input(), "axb");
    assert_eq!(app.input_buffer, "");
}

#[test]
fn navigate_to_explorer_asks_for_overview() {
    let mut app = one_key_app();
    app.popup = Some(Popup::Help);
    app.navigate(Screen::Explorer);
    assert_eq!(app.screen, Screen::Explorer);
    assert_eq!(app.popup, None);
    assert!(matches!(app.outbox.last(), Some(WalletCmd::RefreshNetworkOverview)));
}

#[test]
fn address_book_entries_from_app() {
    let book = vec![AddressEntry {
        label: "friend".to_string(),
        address: "0xf".to_string(),
        notes: String::new(),
    }];
    let app = App::new(vec![key("main", "0xaaa", true, vec![])], book, 3);
    assert_eq!(app.address_book.len(), 1);
    assert_eq!(app.color_phase, 3);
    assert_eq!(app.user_address_index(1), Some(0));
    assert_eq!(app.user_address_index(0), None);
}
