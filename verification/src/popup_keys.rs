//! Keyboard handling while a popup is open: scrolling text popups,
//! confirmations, choices, and the one-line input popups.

use vstd::prelude::*;
use crate::keys::{button_focus_after, handle_button_focus_key, handle_input_key, Key};
use crate::state::App;
use crate::common::{hint_table, screen_hints};
use crate::jumps::blanks;
use crate::seqs::first_index;
use crate::text::{
    byte_len, chars_of, dec, has_prefix, lemma_byte_len_at_most_4, lemma_dec_len_u64, owned,
    push_dec, push_str, starts_with,
};
use crate::tx_builder::TxBuilderState;
use crate::types::{
    AddCommandType, AddressEntry, InputMode, KeyDisplay, Popup, PopupFocus, Screen,
};
use crate::wallet::{Network, WalletCmd};

verus! {

/// `a + b`, saturating at `usize::MAX`.
pub open spec fn sat_add(a: usize, b: usize) -> usize {
    if a + b > usize::MAX {
        usize::MAX
    } else {
        (a + b) as usize
    }
}

/// `a - b`, saturating at 0.
pub open spec fn sat_sub(a: usize, b: usize) -> usize {
    if a >= b {
        (a - b) as usize
    } else {
        0
    }
}

/// The keys that close a scrolling text popup: Esc and `q`, and for the
/// help and detail popups also Enter.
pub open spec fn closes_text_popup(p: Popup, key: Key) -> bool {
    ||| key == Key::Esc
    ||| key == Key::Char('q')
    ||| key == Key::Enter && p != Popup::ErrorLog
}

/// The scroll position of a text popup after a key.
pub open spec fn text_scroll_after(scroll: usize, key: Key) -> usize {
    match key {
        Key::Down => sat_add(scroll, 1),
        Key::Up => sat_sub(scroll, 1),
        Key::PageDown => sat_add(scroll, 5),
        Key::PageUp => sat_sub(scroll, 5),
        _ => scroll,
    }
}

impl App {
    /// A scrolling text popup (help, details, error log) handled `key`.
    #[verifier::opaque]
    pub open spec fn text_popup_key(&self, o: &App, key: Key) -> bool {
        if closes_text_popup(o.popup->0, key) {
            *self == (App { popup: None, ..*o })
        } else {
            *self == (App { popup_scroll: text_scroll_after(o.popup_scroll, key), ..*o })
        }
    }
}

fn handle_text_popup_key(app: &mut App, key: Key)
    requires
        old(app).popup matches Some(p) && (p == Popup::Help || p == Popup::Detail || p
            == Popup::ErrorLog),
    ensures
        final(app).text_popup_key(old(app), key),
{
    proof {
        reveal(App::text_popup_key);
    }
    let p = match app.popup {
        Some(p) => p,
        None => Popup::Help,
    };
    let close = match key {
        Key::Esc => true,
        Key::Char(c) => c == 'q',
        Key::Enter => p != Popup::ErrorLog,
        _ => false,
    };
    if close {
        app.popup = None;
        return;
    }
    let s = app.popup_scroll;
    app.popup_scroll = match key {
        Key::Down => s.saturating_add(1),
        Key::Up => s.saturating_sub(1),
        Key::PageDown => s.saturating_add(5),
        Key::PageUp => s.saturating_sub(5),
        _ => s,
    };
}

// ── Confirmations ────────────────────────────────────────────────

/// The keys that confirm: Enter and `y`.
pub open spec fn confirms(key: Key) -> bool {
    key == Key::Enter || key == Key::Char('y')
}

/// The keys that decline: Esc and `n` (and `q` for quitting).
pub open spec fn declines(key: Key, quit: bool) -> bool {
    key == Key::Esc || key == Key::Char('n') || (quit && key == Key::Char('q'))
}

fn is_confirm(key: Key) -> (b: bool)
    ensures
        b == confirms(key),
{
    match key {
        Key::Enter => true,
        Key::Char(c) => c == 'y',
        _ => false,
    }
}

fn is_decline(key: Key, quit: bool) -> (b: bool)
    ensures
        b == declines(key, quit),
{
    match key {
        Key::Esc => true,
        Key::Char(c) => c == 'n' || (quit && c == 'q'),
        _ => false,
    }
}

impl App {
    /// The selected saved address (an entry of the combined book past the keys).
    pub open spec fn selected_saved_address(&self) -> Option<nat> {
        if self.address_selected >= self.keys@.len() && self.address_selected - self.keys@.len()
            < self.address_book@.len() {
            Some((self.address_selected - self.keys@.len()) as nat)
        } else {
            None
        }
    }

    /// Deleting the selected saved address was confirmed: it is removed,
    /// the selection stays within the combined book, and the book is
    /// marked for saving.
    pub open spec fn address_deleted(&self, o: &App) -> bool {
        match o.selected_saved_address() {
            Some(u) => {
                let book = o.address_book@.remove(u as int);
                let total = o.keys@.len() + book.len();
                &&& self.address_book@ == book
                &&& *self == (App {
                    address_book: self.address_book,
                    address_selected: if o.address_selected >= total && o.address_selected > 0 {
                        (o.address_selected - 1) as usize
                    } else {
                        o.address_selected
                    },
                    address_book_dirty: true,
                    popup: None,
                    ..*o
                })
            },
            None => *self == (App { popup: None, ..*o }),
        }
    }

    /// The confirmation popups (delete address, clear transaction, quit)
    /// handled `key`.
    #[verifier::opaque]
    pub open spec fn confirm_popup_key(&self, o: &App, key: Key) -> bool {
        let p = o.popup->0;
        if confirms(key) {
            if p == Popup::ConfirmDeleteAddress {
                self.address_deleted(o)
            } else if p == Popup::ConfirmClearTx {
                &&& self.tx.is_reset()
                &&& self.tx.sender == o.tx.sender
                &&& *self == (App { tx: self.tx, popup: None, ..*o })
            } else {
                *self == (App { running: false, ..*o })
            }
        } else if declines(key, p == Popup::ConfirmQuit) {
            *self == (App { popup: None, ..*o })
        } else {
            *self == *o
        }
    }
}

fn handle_confirm_popup_key(app: &mut App, key: Key)
    requires
        old(app).popup matches Some(p) && (p == Popup::ConfirmDeleteAddress || p
            == Popup::ConfirmClearTx || p == Popup::ConfirmQuit),
    ensures
        final(app).confirm_popup_key(old(app), key),
{
    let p = match app.popup {
        Some(p) => p,
        None => Popup::ConfirmQuit,
    };
    if is_confirm(key) {
        if p == Popup::ConfirmDeleteAddress {
            delete_selected_address(app);
        } else if p == Popup::ConfirmClearTx {
            app.tx.reset();
            app.popup = None;
        } else {
            app.running = false;
        }
        proof {
            reveal(App::confirm_popup_key);
        }
        return;
    }
    if is_decline(key, p == Popup::ConfirmQuit) {
        app.popup = None;
    }
    proof {
        reveal(App::confirm_popup_key);
    }
}

fn delete_selected_address(app: &mut App)
    ensures
        final(app).address_deleted(old(app)),
{
    let sel = app.address_selected;
    let nk = app.key_entry_count();
    let mut book: Vec<crate::types::AddressEntry> = Vec::new();
    std::mem::swap(&mut book, &mut app.address_book);
    let (new_sel, dirty) = if sel >= nk && sel - nk < book.len() {
        let u = sel - nk;
        let _ = book.remove(u);
        if sel - nk >= book.len() && sel > 0 {
            (sel - 1, true)
        } else {
            (sel, true)
        }
    } else {
        (sel, app.address_book_dirty)
    };
    app.address_book = book;
    app.address_selected = new_sel;
    app.address_book_dirty = dirty;
    app.popup = None;
}

/// The key selection kept within a list of `n` keys after a deletion.
pub open spec fn sel_after_delete(sel: usize, n: nat) -> usize {
    if sel >= n && sel > 0 {
        (sel - 1) as usize
    } else {
        sel
    }
}

/// The keys with the first one marked active.
pub open spec fn first_promoted(keys: Seq<KeyDisplay>) -> Seq<KeyDisplay> {
    keys.update(0, KeyDisplay { is_active: true, ..keys[0] })
}

impl App {
    /// `self`, with its key selection and popup as in `o`, is the result of
    /// a refresh from `mid`.
    pub open spec fn refresh_led_to(&self, o: &App, mid: App) -> bool {
        (App { keys_selected: o.keys_selected, popup: o.popup, ..*self }).refreshed(&mid)
    }

    /// The state `mid` before the refresh after promoting the first key.
    pub open spec fn promoted_from(mid: App, o: &App, keys: Seq<KeyDisplay>, out: Seq<WalletCmd>) -> bool {
        &&& mid.keys@ == first_promoted(keys)
        &&& mid.outbox@ == out.push(WalletCmd::SetActiveKey(0))
        &&& mid == (App { keys: mid.keys, outbox: mid.outbox, ..*o })
    }
}

impl App {
    /// Deleting the selected key was confirmed: it is removed and the
    /// backend told; when it was the active key and keys remain, the first
    /// becomes active, the backend is told and the data refreshed; the
    /// selection stays within the list and the popup closes.
    #[verifier::opaque]
    pub open spec fn key_deleted(&self, o: &App) -> bool {
        let idx = o.keys_selected;
        if idx < o.keys@.len() {
            let keys1 = o.keys@.remove(idx as int);
            let out1 = o.outbox@.push(WalletCmd::DeleteKey(idx));
            if o.keys@[idx as int].is_active && keys1.len() > 0 {
                &&& self.keys_selected == sel_after_delete(idx, keys1.len())
                &&& self.popup is None
                &&& exists|mid: App|
                    App::promoted_from(mid, o, keys1, out1) && #[trigger] self.refresh_led_to(o, mid)
            } else {
                &&& self.keys@ == keys1
                &&& self.outbox@ == out1
                &&& *self == (App {
                    keys: self.keys,
                    outbox: self.outbox,
                    keys_selected: sel_after_delete(idx, keys1.len()),
                    popup: None,
                    ..*o
                })
            }
        } else {
            *self == (App { popup: None, ..*o })
        }
    }

    /// The key-deletion confirmation handled `key`.
    #[verifier::opaque]
    pub open spec fn delete_key_popup_key(&self, o: &App, key: Key) -> bool {
        if confirms(key) {
            self.key_deleted(o)
        } else if declines(key, false) {
            *self == (App { popup: None, ..*o })
        } else {
            *self == *o
        }
    }
}

fn handle_delete_key_popup_key(app: &mut App, key: Key)
    ensures
        final(app).delete_key_popup_key(old(app), key),
{
    if is_confirm(key) {
        delete_selected_key(app);
    } else if is_decline(key, false) {
        app.popup = None;
    }
    proof {
        reveal(App::delete_key_popup_key);
    }
}

fn delete_selected_key(app: &mut App)
    ensures
        final(app).key_deleted(old(app)),
{
    let idx = app.keys_selected;
    if idx >= app.keys.len() {
        app.popup = None;
        proof {
            reveal(App::key_deleted);
        }
        return;
    }
    let was_active = remove_key(app, idx);
    if was_active && app.keys.len() > 0 {
        let ghost o2 = *app;
        promote_and_refresh(app, idx);
        proof {
            reveal(App::key_deleted);
            let mid = choose|mid: App|
                App::promoted_from(mid, &o2, o2.keys@, o2.outbox@) && #[trigger] app.refresh_led_to(
                    &o2,
                    mid,
                );
            assert(App::promoted_from(
                mid,
                old(app),
                old(app).keys@.remove(idx as int),
                old(app).outbox@.push(WalletCmd::DeleteKey(idx)),
            ));
            assert(app.refresh_led_to(old(app), mid));
        }
        return;
    }
    let n = app.keys.len();
    app.keys_selected = if idx >= n && idx > 0 {
        idx - 1
    } else {
        idx
    };
    app.popup = None;
    proof {
        reveal(App::key_deleted);
    }
}

/// Remove key `idx` and tell the backend; whether it was the active key.
fn remove_key(app: &mut App, idx: usize) -> (was_active: bool)
    requires
        idx < old(app).keys@.len(),
    ensures
        was_active == old(app).keys@[idx as int].is_active,
        final(app).keys@ == old(app).keys@.remove(idx as int),
        final(app).outbox@ == old(app).outbox@.push(WalletCmd::DeleteKey(idx)),
        *final(app) == (App { keys: final(app).keys, outbox: final(app).outbox, ..*old(app) }),
{
    let removed = app.keys.remove(idx);
    app.outbox.push(WalletCmd::DeleteKey(idx));
    removed.is_active
}

/// After the active key was deleted: the first key becomes active, the
/// data is refreshed, the selection kept in range and the popup closed.
fn promote_and_refresh(app: &mut App, idx: usize)
    requires
        old(app).keys@.len() > 0,
        old(app).keys_selected == idx,
    ensures
        final(app).keys_selected == sel_after_delete(idx, old(app).keys@.len()),
        final(app).popup is None,
        exists|mid: App|
            App::promoted_from(mid, old(app), old(app).keys@, old(app).outbox@)
                && #[trigger] final(app).refresh_led_to(old(app), mid),
{
    promote_first_key(app);
    let ghost mid = *app;
    app.request_refresh();
    let ghost r = *app;
    proof {
        r.lemma_refreshed_frame(&mid);
    }
    let n = app.keys.len();
    app.keys_selected = if idx >= n && idx > 0 {
        idx - 1
    } else {
        idx
    };
    app.popup = None;
    assert((App { keys_selected: old(app).keys_selected, popup: old(app).popup, ..*app }) == r);
    assert(app.refresh_led_to(old(app), mid));
}

/// Mark the first key active and tell the backend.
fn promote_first_key(app: &mut App)
    requires
        old(app).keys@.len() > 0,
    ensures
        final(app).keys@ == old(app).keys@.update(
            0,
            KeyDisplay { is_active: true, ..old(app).keys@[0] },
        ),
        final(app).outbox@ == old(app).outbox@.push(WalletCmd::SetActiveKey(0)),
        *final(app) == (App { keys: final(app).keys, outbox: final(app).outbox, ..*old(app) }),
{
    let mut k = app.keys[0].clone();
    k.is_active = true;
    app.keys.set(0, k);
    app.outbox.push(WalletCmd::SetActiveKey(0));
}

// ── Choices ──────────────────────────────────────────────────────

/// The command type a key picks in the "add command" popup.
pub open spec fn command_choice(key: Key) -> Option<AddCommandType> {
    match key {
        Key::Char(c) => if c == '1' || c == 't' {
            Some(AddCommandType::TransferIota)
        } else if c == '2' || c == 'o' {
            Some(AddCommandType::TransferObjects)
        } else if c == '3' || c == 'm' {
            Some(AddCommandType::MoveCall)
        } else if c == '4' || c == 's' {
            Some(AddCommandType::SplitCoins)
        } else if c == '5' || c == 'r' {
            Some(AddCommandType::MergeCoins)
        } else if c == '6' || c == 'k' {
            Some(AddCommandType::Stake)
        } else if c == '7' || c == 'u' {
            Some(AddCommandType::Unstake)
        } else {
            None
        },
        _ => None,
    }
}

/// Number of fields of the form for a command type.
pub open spec fn form_field_count(ct: AddCommandType) -> nat {
    match ct {
        AddCommandType::MoveCall => 5,
        AddCommandType::Unstake => 1,
        _ => 2,
    }
}

fn command_choice_of(key: Key) -> (r: Option<AddCommandType>)
    ensures
        r == command_choice(key),
{
    match key {
        Key::Char(c) => if c == '1' || c == 't' {
            Some(AddCommandType::TransferIota)
        } else if c == '2' || c == 'o' {
            Some(AddCommandType::TransferObjects)
        } else if c == '3' || c == 'm' {
            Some(AddCommandType::MoveCall)
        } else if c == '4' || c == 's' {
            Some(AddCommandType::SplitCoins)
        } else if c == '5' || c == 'r' {
            Some(AddCommandType::MergeCoins)
        } else if c == '6' || c == 'k' {
            Some(AddCommandType::Stake)
        } else if c == '7' || c == 'u' {
            Some(AddCommandType::Unstake)
        } else {
            None
        },
        _ => None,
    }
}

fn field_count_of(ct: AddCommandType) -> (n: usize)
    ensures
        n == form_field_count(ct),
{
    match ct {
        AddCommandType::MoveCall => 5,
        AddCommandType::Unstake => 1,
        _ => 2,
    }
}

impl App {
    /// The "add command" form opened for `ct`: empty fields, no picked
    /// values, editing the first field.
    pub open spec fn form_opened(&self, o: &App, ct: AddCommandType) -> bool {
        &&& blanks(self.tx.edit_buffers@, form_field_count(ct))
        &&& self.tx.multi_values@.len() == 0
        &&& self.input_buffer@.len() == 0
        &&& *self == (App {
            tx: TxBuilderState {
                adding_cmd: Some(ct),
                edit_field: 0,
                edit_buffers: self.tx.edit_buffers,
                multi_values: self.tx.multi_values,
                ..o.tx
            },
            popup: Some(Popup::AddCommandForm),
            popup_scroll: 0,
            popup_focus: PopupFocus::Fields,
            input_mode: InputMode::Editing,
            input_buffer: self.input_buffer,
            input_cursor: 0,
            ..*o
        })
    }

    /// The "add command" popup handled `key`: a listed key opens the form
    /// for its command type, Esc closes the popup.
    #[verifier::opaque]
    pub open spec fn add_command_popup_key(&self, o: &App, key: Key) -> bool {
        match command_choice(key) {
            Some(ct) => self.form_opened(o, ct),
            None => if key == Key::Esc {
                *self == (App { popup: None, ..*o })
            } else {
                *self == *o
            },
        }
    }
}

fn handle_add_command_popup_key(app: &mut App, key: Key)
    ensures
        final(app).add_command_popup_key(old(app), key),
{
    match command_choice_of(key) {
        Some(ct) => {
            open_command_form(app, ct);
            proof {
                reveal(App::add_command_popup_key);
            }
        },
        None => {
            if key == Key::Esc {
                app.popup = None;
            }
            proof {
                reveal(App::add_command_popup_key);
            }
        },
    }
}

fn open_command_form(app: &mut App, ct: AddCommandType)
    ensures
        final(app).form_opened(old(app), ct),
{
    let n = field_count_of(ct);
    app.tx.adding_cmd = Some(ct);
    app.tx.edit_field = 0;
    app.tx.edit_buffers = crate::jumps::blank_strings(n);
    app.tx.multi_values.clear();
    app.open_popup(Popup::AddCommandForm);
    proof {
        reveal_strlit("");
    }
    app.start_input("");
}

/// The key scheme a key picks in the "generate key" popup.
pub open spec fn scheme_choice(key: Key) -> Option<Seq<char>> {
    match key {
        Key::Char(c) => if c == '1' || c == 'e' {
            Some("ed25519"@)
        } else if c == '2' || c == 's' {
            Some("secp256k1"@)
        } else if c == '3' || c == 'r' {
            Some("secp256r1"@)
        } else {
            None
        },
        _ => None,
    }
}

fn scheme_choice_of(key: Key) -> (r: Option<&'static str>)
    ensures
        match scheme_choice(key) {
            Some(s) => r matches Some(x) && x@ == s,
            None => r is None,
        },
{
    match key {
        Key::Char(c) => if c == '1' || c == 'e' {
            Some("ed25519")
        } else if c == '2' || c == 's' {
            Some("secp256k1")
        } else if c == '3' || c == 'r' {
            Some("secp256r1")
        } else {
            None
        },
        _ => None,
    }
}

/// `prefix` followed by a number.
fn numbered(prefix: &str, n: usize) -> (r: String)
    ensures
        r@ == prefix@ + dec(n as nat),
{
    let mut s = owned(prefix);
    push_dec(&mut s, n as u128);
    s
}

impl App {
    /// The "generate key" popup handled `key`: a listed key remembers the
    /// scheme and asks for an alias, proposing `key-<number of keys>`.
    #[verifier::opaque]
    pub open spec fn generate_key_popup_key(&self, o: &App, key: Key) -> bool {
        match scheme_choice(key) {
            Some(s) => {
                &&& self.keys_gen_scheme matches Some(g) && g@ == s
                &&& self.input_buffer@ == "key-"@ + dec(o.keys@.len())
                &&& self.input_cursor as nat == byte_len(self.input_buffer@)
                &&& *self == (App {
                    keys_gen_scheme: self.keys_gen_scheme,
                    popup: Some(Popup::GenerateKeyAlias),
                    popup_scroll: 0,
                    popup_focus: PopupFocus::Fields,
                    input_mode: InputMode::Editing,
                    input_buffer: self.input_buffer,
                    input_cursor: self.input_cursor,
                    ..*o
                })
            },
            None => if key == Key::Esc {
                *self == (App { popup: None, ..*o })
            } else {
                *self == *o
            },
        }
    }
}

fn handle_generate_key_popup_key(app: &mut App, key: Key)
    ensures
        final(app).generate_key_popup_key(old(app), key),
{
    match scheme_choice_of(key) {
        Some(scheme) => {
            app.keys_gen_scheme = Some(owned(scheme));
            let alias = numbered("key-", app.keys.len());
            proof {
                lemma_dec_len_u64(old(app).keys@.len());
                lemma_byte_len_at_most_4(alias@);
                reveal_strlit("key-");
            }
            app.open_popup(Popup::GenerateKeyAlias);
            app.start_input(alias.as_str());
            proof {
                reveal(App::generate_key_popup_key);
            }
        },
        None => {
            if key == Key::Esc {
                app.popup = None;
            }
            proof {
                reveal(App::generate_key_popup_key);
            }
        },
    }
}

/// The network a key picks in the "switch network" popup.
pub open spec fn network_choice(key: Key) -> Option<Network> {
    match key {
        Key::Char(c) => if c == '1' || c == 'm' {
            Some(Network::Mainnet)
        } else if c == '2' || c == 't' {
            Some(Network::Testnet)
        } else if c == '3' || c == 'd' {
            Some(Network::Devnet)
        } else {
            None
        },
        _ => None,
    }
}

fn network_choice_of(key: Key) -> (r: Option<Network>)
    ensures
        r == network_choice(key),
{
    match key {
        Key::Char(c) => if c == '1' || c == 'm' {
            Some(Network::Mainnet)
        } else if c == '2' || c == 't' {
            Some(Network::Testnet)
        } else if c == '3' || c == 'd' {
            Some(Network::Devnet)
        } else {
            None
        },
        _ => None,
    }
}

impl App {
    /// The "switch network" popup handled `key`: a listed key disconnects,
    /// shows `<name>...` and asks the backend to connect.
    #[verifier::opaque]
    pub open spec fn switch_network_popup_key(&self, o: &App, key: Key) -> bool {
        match network_choice(key) {
            Some(net) => {
                &&& self.network_name@ == net.spec_name() + "..."@
                &&& self.outbox@ == o.outbox@.push(WalletCmd::Connect(net))
                &&& *self == (App {
                    connected: false,
                    network_name: self.network_name,
                    loading: true,
                    outbox: self.outbox,
                    popup: None,
                    ..*o
                })
            },
            None => if key == Key::Esc {
                *self == (App { popup: None, ..*o })
            } else {
                *self == *o
            },
        }
    }
}

fn handle_switch_network_popup_key(app: &mut App, key: Key)
    ensures
        final(app).switch_network_popup_key(old(app), key),
{
    match network_choice_of(key) {
        Some(net) => {
            let mut name = owned(net.name());
            push_str(&mut name, "...");
            app.connected = false;
            app.network_name = name;
            app.loading = true;
            app.outbox.push(WalletCmd::Connect(net));
            app.popup = None;
            proof {
                reveal(App::switch_network_popup_key);
            }
        },
        None => {
            if key == Key::Esc {
                app.popup = None;
            }
            proof {
                reveal(App::switch_network_popup_key);
            }
        },
    }
}

// ── One-line input popups ────────────────────────────────────────

/// Tab: fields, then Submit, then Cancel, then the fields again.
pub open spec fn focus_next(f: PopupFocus) -> PopupFocus {
    match f {
        PopupFocus::Fields => PopupFocus::Submit,
        PopupFocus::Submit => PopupFocus::Cancel,
        PopupFocus::Cancel => PopupFocus::Fields,
    }
}

/// Shift-Tab: the other way round.
pub open spec fn focus_prev(f: PopupFocus) -> PopupFocus {
    match f {
        PopupFocus::Fields => PopupFocus::Cancel,
        PopupFocus::Submit => PopupFocus::Fields,
        PopupFocus::Cancel => PopupFocus::Submit,
    }
}

fn focus_next_of(f: PopupFocus) -> (r: PopupFocus)
    ensures
        r == focus_next(f),
{
    match f {
        PopupFocus::Fields => PopupFocus::Submit,
        PopupFocus::Submit => PopupFocus::Cancel,
        PopupFocus::Cancel => PopupFocus::Fields,
    }
}

fn focus_prev_of(f: PopupFocus) -> (r: PopupFocus)
    ensures
        r == focus_prev(f),
{
    match f {
        PopupFocus::Fields => PopupFocus::Cancel,
        PopupFocus::Submit => PopupFocus::Fields,
        PopupFocus::Cancel => PopupFocus::Submit,
    }
}

/// The popups that read one line of text.
pub open spec fn is_line_popup(p: Popup) -> bool {
    p == Popup::GenerateKeyAlias || p == Popup::ImportKey || p == Popup::RenameKey || p
        == Popup::LookupIotaName
}

impl App {
    /// The input popup was closed without submitting: editing stops, the
    /// input is emptied (and a pending key scheme forgotten when asked).
    pub open spec fn input_closed(&self, o: &App, forget_scheme: bool) -> bool {
        &&& self.input_buffer@.len() == 0
        &&& *self == (App {
            popup: None,
            keys_gen_scheme: if forget_scheme {
                None
            } else {
                o.keys_gen_scheme
            },
            input_mode: InputMode::Normal,
            input_buffer: self.input_buffer,
            input_cursor: 0,
            ..*o
        })
    }

    /// One command was queued after the existing ones.
    pub open spec fn queued_one(&self, o: &App) -> bool {
        &&& self.outbox@.len() == o.outbox@.len() + 1
        &&& self.outbox@.drop_last() == o.outbox@
    }

    /// What submitting a one-line popup does with the typed text.
    #[verifier::opaque]
    pub open spec fn line_submitted(&self, o: &App) -> bool {
        let val = o.input_buffer;
        let n = o.keys@.len();
        let p = o.popup->0;
        &&& self.input_buffer@.len() == 0
        &&& *self == (App {
            keys: self.keys,
            outbox: self.outbox,
            keys_gen_scheme: self.keys_gen_scheme,
            popup: None,
            input_mode: InputMode::Normal,
            input_buffer: self.input_buffer,
            input_cursor: 0,
            ..*o
        })
        &&& if p == Popup::GenerateKeyAlias {
            &&& self.keys_gen_scheme is None
            &&& self.keys == o.keys
            &&& match o.keys_gen_scheme {
                Some(g) => self.queued_one(o) && (self.outbox@.last() matches WalletCmd::GenerateKey {
                    scheme,
                    alias,
                } && scheme == g && alias@ == if val@.len() == 0 {
                    "key-"@ + dec(n)
                } else {
                    val@
                }),
                None => self.outbox == o.outbox,
            }
        } else {
            &&& self.keys_gen_scheme == o.keys_gen_scheme
            &&& if val@.len() == 0 {
                self.outbox == o.outbox && self.keys == o.keys
            } else if p == Popup::ImportKey {
                &&& self.keys == o.keys
                &&& self.queued_one(o)
                &&& self.outbox@.last() matches WalletCmd::ImportKey {
                    scheme,
                    private_key_hex,
                    alias,
                } && scheme@ == "ed25519"@ && private_key_hex == val && alias@ == "imported-"@
                    + dec(n)
            } else if p == Popup::RenameKey {
                let idx = o.keys_selected;
                &&& self.keys@ == if idx < n {
                    o.keys@.update(idx as int, KeyDisplay { alias: val, ..o.keys@[idx as int] })
                } else {
                    o.keys@
                }
                &&& self.outbox@ == o.outbox@.push(WalletCmd::RenameKey { idx, new_alias: val })
            } else {
                &&& self.keys == o.keys
                &&& self.queued_one(o)
                &&& self.outbox@.last() matches WalletCmd::LookupIotaName { name, label, notes }
                    && name == val && label@.len() == 0 && notes@.len() == 0
            }
        }
    }

    /// A one-line input popup (key alias, key import, key rename, name
    /// lookup) handled `key`: Left/Right move between the buttons, Tab and
    /// Shift-Tab cycle the focus, Esc leaves the buttons or closes, Enter
    /// moves to Submit, submits or cancels, other keys edit the text.
    #[verifier::opaque]
    pub open spec fn line_popup_key(&self, o: &App, key: Key) -> bool {
        let forget = o.popup == Some(Popup::GenerateKeyAlias);
        match button_focus_after(o.popup_focus, key) {
            Some(f) => *self == (App { popup_focus: f, ..*o }),
            None => match key {
                Key::Esc => if o.popup_focus != PopupFocus::Fields {
                    *self == (App { popup_focus: PopupFocus::Fields, ..*o })
                } else {
                    self.input_closed(o, forget)
                },
                Key::Tab => *self == (App { popup_focus: focus_next(o.popup_focus), ..*o }),
                Key::BackTab => *self == (App { popup_focus: focus_prev(o.popup_focus), ..*o }),
                Key::Enter => match o.popup_focus {
                    PopupFocus::Fields => *self == (App { popup_focus: PopupFocus::Submit, ..*o }),
                    PopupFocus::Submit => self.line_submitted(o),
                    PopupFocus::Cancel => self.input_closed(o, forget),
                },
                _ => if o.popup_focus == PopupFocus::Fields {
                    self.edited_by(o, key)
                } else {
                    *self == *o
                },
            },
        }
    }
}

fn close_input_popup(app: &mut App, forget_scheme: bool)
    ensures
        final(app).input_closed(old(app), forget_scheme),
{
    app.popup = None;
    if forget_scheme {
        app.keys_gen_scheme = None;
    }
    app.input_mode = InputMode::Normal;
    app.input_clear();
}

fn handle_line_popup_key(app: &mut App, key: Key)
    requires
        old(app).popup matches Some(p) && is_line_popup(p),
        old(app).input_ok(),
    ensures
        final(app).line_popup_key(old(app), key),
{
    let forget = app.popup == Some(Popup::GenerateKeyAlias);
    if handle_button_focus_key(app, key) {
        proof {
            reveal(App::line_popup_key);
        }
        return;
    }
    let focus = app.popup_focus;
    match key {
        Key::Esc => {
            if focus != PopupFocus::Fields {
                app.popup_focus = PopupFocus::Fields;
            } else {
                close_input_popup(app, forget);
            }
        },
        Key::Tab => {
            app.popup_focus = focus_next_of(focus);
        },
        Key::BackTab => {
            app.popup_focus = focus_prev_of(focus);
        },
        Key::Enter => match focus {
            PopupFocus::Fields => {
                app.popup_focus = PopupFocus::Submit;
            },
            PopupFocus::Submit => {
                submit_line_popup(app);
            },
            PopupFocus::Cancel => {
                close_input_popup(app, forget);
            },
        },
        _ => {
            if focus == PopupFocus::Fields {
                handle_input_key(app, key);
            }
        },
    }
    proof {
        reveal(App::line_popup_key);
    }
}

fn submit_line_popup(app: &mut App)
    requires
        old(app).popup matches Some(p) && is_line_popup(p),
    ensures
        final(app).line_submitted(old(app)),
{
    if app.popup == Some(Popup::GenerateKeyAlias) {
        submit_key_alias(app);
    } else if app.popup == Some(Popup::ImportKey) {
        submit_import_key(app);
    } else if app.popup == Some(Popup::RenameKey) {
        submit_rename_key(app);
    } else {
        submit_name_lookup(app);
    }
}

fn submit_key_alias(app: &mut App)
    requires
        old(app).popup == Some(Popup::GenerateKeyAlias),
    ensures
        final(app).line_submitted(old(app)),
{
    let n = app.keys.len();
    let val = app.stop_input();
    queue_generated_key(app, val, n);
    app.popup = None;
    proof {
        reveal(App::line_submitted);
    }
}

fn submit_import_key(app: &mut App)
    requires
        old(app).popup == Some(Popup::ImportKey),
    ensures
        final(app).line_submitted(old(app)),
{
    let n = app.keys.len();
    let val = app.stop_input();
    if !val.as_str().is_empty() {
        let alias = numbered("imported-", n);
        app.outbox.push(WalletCmd::ImportKey { scheme: owned("ed25519"), private_key_hex: val, alias });
        assert(app.outbox@.drop_last() =~= old(app).outbox@);
    }
    app.popup = None;
    proof {
        reveal(App::line_submitted);
    }
}

fn submit_rename_key(app: &mut App)
    requires
        old(app).popup == Some(Popup::RenameKey),
    ensures
        final(app).line_submitted(old(app)),
{
    let val = app.stop_input();
    if !val.as_str().is_empty() {
        rename_selected_key(app, val);
    }
    app.popup = None;
    proof {
        reveal(App::line_submitted);
    }
}

fn submit_name_lookup(app: &mut App)
    requires
        old(app).popup == Some(Popup::LookupIotaName),
    ensures
        final(app).line_submitted(old(app)),
{
    let val = app.stop_input();
    if !val.as_str().is_empty() {
        app.outbox.push(WalletCmd::LookupIotaName { name: val, label: String::new(), notes: String::new() });
        assert(app.outbox@.drop_last() =~= old(app).outbox@);
    }
    app.popup = None;
    proof {
        reveal(App::line_submitted);
    }
}

/// Queue the key generation asked for, under the typed alias or
/// `key-<n>`, when a scheme was chosen; the scheme is used up.
fn queue_generated_key(app: &mut App, val: String, n: usize)
    ensures
        final(app).keys_gen_scheme is None,
        match old(app).keys_gen_scheme {
            Some(g) => final(app).outbox@.len() == old(app).outbox@.len() + 1
                && final(app).outbox@.drop_last() == old(app).outbox@ && (final(app).outbox@.last() matches WalletCmd::GenerateKey { scheme, alias } && scheme == g
                && alias@ == if val@.len() == 0 {
                "key-"@ + dec(n as nat)
            } else {
                val@
            }),
            None => final(app).outbox == old(app).outbox,
        },
        *final(app) == (App {
            outbox: final(app).outbox,
            keys_gen_scheme: None,
            ..*old(app)
        }),
{
    let mut scheme = None;
    std::mem::swap(&mut scheme, &mut app.keys_gen_scheme);
    match scheme {
        Some(g) => {
            let alias = if val.as_str().is_empty() {
                numbered("key-", n)
            } else {
                val
            };
            app.outbox.push(WalletCmd::GenerateKey { scheme: g, alias });
            assert(app.outbox@.drop_last() =~= old(app).outbox@);
        },
        None => {},
    }
}

fn rename_selected_key(app: &mut App, new_alias: String)
    ensures
        final(app).keys@ == if old(app).keys_selected < old(app).keys@.len() {
            old(app).keys@.update(
                old(app).keys_selected as int,
                KeyDisplay { alias: new_alias, ..old(app).keys@[old(app).keys_selected as int] },
            )
        } else {
            old(app).keys@
        },
        final(app).outbox@ == old(app).outbox@.push(
            WalletCmd::RenameKey { idx: old(app).keys_selected, new_alias },
        ),
        *final(app) == (App { keys: final(app).keys, outbox: final(app).outbox, ..*old(app) }),
{
    let idx = app.keys_selected;
    if idx < app.keys.len() {
        let mut k = app.keys[idx].clone();
        k.alias = new_alias.clone();
        app.keys.set(idx, k);
    }
    app.outbox.push(WalletCmd::RenameKey { idx, new_alias });
}

// ── Address form ─────────────────────────────────────────────────

/// Store `val` as field `i` of the address form.
fn set_address_field(app: &mut App, i: usize, val: String)
    requires
        i < 3,
    ensures
        final(app).address_edit_buffers@ == old(app).address_edit_buffers@.update(i as int, val),
        *final(app) == (App { address_edit_buffers: final(app).address_edit_buffers, ..*old(app) }),
{
    app.address_edit_buffers[i] = val;
}

impl App {
    /// The address form's state is usable: the field index is one of the
    /// three, the cursor is on a character boundary, and every text fits,
    /// with room to edit, in the input buffer.
    pub open spec fn address_form_ok(&self) -> bool {
        &&& self.address_edit_field < 3
        &&& self.input_ok()
        &&& forall|i: int|
            0 <= i < 3 ==> byte_len((#[trigger] self.address_edit_buffers@[i])@) + 4 <= usize::MAX
    }

    /// Editing moved to field `f` of the form (its text loaded into the input).
    pub open spec fn editing_field(&self, o: &App, bufs: Seq<String>, f: usize) -> bool {
        &&& self.address_edit_buffers@ == bufs
        &&& self.input_buffer@ == bufs[f as int]@
        &&& self.input_cursor as nat == byte_len(bufs[f as int]@)
        &&& *self == (App {
            address_edit_buffers: self.address_edit_buffers,
            address_edit_field: f,
            popup_focus: PopupFocus::Fields,
            input_mode: InputMode::Editing,
            input_buffer: self.input_buffer,
            input_cursor: self.input_cursor,
            ..*o
        })
    }

    /// Tab or Enter on the fields: the text is stored in its field, and
    /// editing moves to the next field, or to the Submit button after the last.
    pub open spec fn form_advanced(&self, o: &App) -> bool {
        let bufs = o.address_edit_buffers@.update(o.address_edit_field as int, o.input_buffer);
        if o.address_edit_field < 2 {
            self.editing_field(o, bufs, (o.address_edit_field + 1) as usize)
        } else {
            &&& self.address_edit_buffers@ == bufs
            &&& *self == (App {
                address_edit_buffers: self.address_edit_buffers,
                popup_focus: PopupFocus::Submit,
                ..*o
            })
        }
    }

    /// Shift-Tab on the fields: the text is stored and editing moves to the
    /// previous field, or to the Cancel button from the first.
    pub open spec fn form_backed(&self, o: &App) -> bool {
        if o.address_edit_field > 0 {
            let bufs = o.address_edit_buffers@.update(o.address_edit_field as int, o.input_buffer);
            self.editing_field(o, bufs, (o.address_edit_field - 1) as usize)
        } else {
            *self == (App { popup_focus: PopupFocus::Cancel, ..*o })
        }
    }

    /// Submitting the address form: with a label and an address, a new
    /// entry whose address does not start with `0x` is looked up as an IOTA
    /// name, any other new entry is added to the book, and an edited saved
    /// entry is replaced (the book is then marked for saving); the popup
    /// closes either way.
    #[verifier::opaque]
    pub open spec fn address_form_submitted(&self, o: &App) -> bool {
        let bufs = o.address_edit_buffers@.update(o.address_edit_field as int, o.input_buffer);
        let label = bufs[0];
        let address = bufs[1];
        let notes = bufs[2];
        let entry = AddressEntry { label, address, notes };
        &&& self.input_buffer@.len() == 0
        &&& self.address_edit_buffers@ == bufs
        &&& *self == (App {
            address_edit_buffers: self.address_edit_buffers,
            address_book: self.address_book,
            address_book_dirty: self.address_book_dirty,
            outbox: self.outbox,
            popup: None,
            input_mode: InputMode::Normal,
            input_buffer: self.input_buffer,
            input_cursor: 0,
            ..*o
        })
        &&& if label@.len() == 0 || address@.len() == 0 {
            &&& self.address_book == o.address_book
            &&& self.address_book_dirty == o.address_book_dirty
            &&& self.outbox == o.outbox
        } else if o.popup == Some(Popup::AddAddress) {
            if !has_prefix(address@, "0x"@) {
                &&& self.address_book == o.address_book
                &&& self.address_book_dirty == o.address_book_dirty
                &&& self.outbox@ == o.outbox@.push(
                    WalletCmd::LookupIotaName { name: address, label, notes },
                )
            } else {
                &&& self.address_book@ == o.address_book@.push(entry)
                &&& self.address_book_dirty
                &&& self.outbox == o.outbox
            }
        } else {
            &&& self.outbox == o.outbox
            &&& match o.user_index(o.address_selected) {
                Some(u) => {
                    &&& self.address_book_dirty
                    &&& self.address_book@ == if u < o.address_book@.len() {
                        o.address_book@.update(u as int, entry)
                    } else {
                        o.address_book@
                    }
                },
                None => self.address_book == o.address_book && self.address_book_dirty
                    == o.address_book_dirty,
            }
        }
    }

    /// The saved-entry index of a position in the combined address book.
    pub open spec fn user_index(&self, i: usize) -> Option<nat> {
        if i >= self.keys@.len() {
            Some((i - self.keys@.len()) as nat)
        } else {
            None
        }
    }

    /// The address form (add or edit an entry) handled `key`.
    #[verifier::opaque]
    pub open spec fn address_form_key(&self, o: &App, key: Key) -> bool {
        let f = o.address_edit_field;
        let bufs = o.address_edit_buffers@;
        match button_focus_after(o.popup_focus, key) {
            Some(nf) => *self == (App { popup_focus: nf, ..*o }),
            None => match key {
                Key::Esc => if o.popup_focus != PopupFocus::Fields {
                    *self == (App { popup_focus: PopupFocus::Fields, ..*o })
                } else {
                    self.input_closed(o, false)
                },
                Key::Tab => match o.popup_focus {
                    PopupFocus::Fields => self.form_advanced(o),
                    PopupFocus::Submit => *self == (App { popup_focus: PopupFocus::Cancel, ..*o }),
                    PopupFocus::Cancel => self.editing_field(o, bufs, 0),
                },
                Key::BackTab => match o.popup_focus {
                    PopupFocus::Fields => self.form_backed(o),
                    PopupFocus::Submit => self.editing_field(o, bufs, 2),
                    PopupFocus::Cancel => *self == (App { popup_focus: PopupFocus::Submit, ..*o }),
                },
                Key::Enter => match o.popup_focus {
                    PopupFocus::Fields => self.form_advanced(o),
                    PopupFocus::Submit => self.address_form_submitted(o),
                    PopupFocus::Cancel => self.input_closed(o, false),
                },
                _ => if o.popup_focus == PopupFocus::Fields {
                    self.edited_by(o, key)
                } else {
                    *self == *o
                },
            },
        }
    }
}

/// Load field `f` of the address form into the input and focus the fields.
fn edit_address_field(app: &mut App, f: usize)
    requires
        f < 3,
        byte_len(old(app).address_edit_buffers@[f as int]@) + 4 <= usize::MAX,
    ensures
        final(app).editing_field(old(app), old(app).address_edit_buffers@, f),
{
    let val = app.address_edit_buffers[f].clone();
    app.address_edit_field = f;
    app.start_input(val.as_str());
    app.popup_focus = PopupFocus::Fields;
}

fn advance_address_field(app: &mut App)
    requires
        old(app).address_form_ok(),
    ensures
        final(app).form_advanced(old(app)),
{
    let f = app.address_edit_field;
    let val = app.input_buffer.clone();
    set_address_field(app, f, val);
    if f < 2 {
        edit_address_field(app, f + 1);
    } else {
        app.popup_focus = PopupFocus::Submit;
    }
}

fn back_address_field(app: &mut App)
    requires
        old(app).address_form_ok(),
    ensures
        final(app).form_backed(old(app)),
{
    let f = app.address_edit_field;
    if f == 0 {
        app.popup_focus = PopupFocus::Cancel;
        return;
    }
    let val = app.input_buffer.clone();
    set_address_field(app, f, val);
    edit_address_field(app, f - 1);
}

impl App {
    /// What the submitted entry does to the address book, the saving flag
    /// and the outbox (see `address_form_submitted`).
    #[verifier::opaque]
    pub open spec fn entry_applied(&self, o: &App, label: String, address: String, notes: String) -> bool {
        let entry = AddressEntry { label, address, notes };
        &&& *self == (App {
            address_book: self.address_book,
            address_book_dirty: self.address_book_dirty,
            outbox: self.outbox,
            ..*o
        })
        &&& if label@.len() == 0 || address@.len() == 0 {
            &&& self.address_book == o.address_book
            &&& self.address_book_dirty == o.address_book_dirty
            &&& self.outbox == o.outbox
        } else if o.popup == Some(Popup::AddAddress) {
            if !has_prefix(address@, "0x"@) {
                &&& self.address_book == o.address_book
                &&& self.address_book_dirty == o.address_book_dirty
                &&& self.outbox@ == o.outbox@.push(
                    WalletCmd::LookupIotaName { name: address, label, notes },
                )
            } else {
                &&& self.address_book@ == o.address_book@.push(entry)
                &&& self.address_book_dirty
                &&& self.outbox == o.outbox
            }
        } else {
            &&& self.outbox == o.outbox
            &&& match o.user_index(o.address_selected) {
                Some(u) => {
                    &&& self.address_book_dirty
                    &&& self.address_book@ == if u < o.address_book@.len() {
                        o.address_book@.update(u as int, entry)
                    } else {
                        o.address_book@
                    }
                },
                None => self.address_book == o.address_book && self.address_book_dirty
                    == o.address_book_dirty,
            }
        }
    }
}

fn apply_address_entry(app: &mut App, label: String, address: String, notes: String)
    ensures
        final(app).entry_applied(old(app), label, address, notes),
{
    if label.as_str().is_empty() || address.as_str().is_empty() {
        proof {
            reveal(App::entry_applied);
        }
        return;
    }
    if app.popup == Some(Popup::AddAddress) {
        add_address_entry(app, label, address, notes);
        proof {
            reveal(App::entry_applied);
        }
        return;
    }
    edit_address_entry(app, label, address, notes);
    proof {
        reveal(App::entry_applied);
    }
}

/// A new entry: looked up as an IOTA name unless its address starts with `0x`.
fn add_address_entry(app: &mut App, label: String, address: String, notes: String)
    ensures
        !has_prefix(address@, "0x"@) ==> {
            &&& final(app).outbox@ == old(app).outbox@.push(
                WalletCmd::LookupIotaName { name: address, label, notes },
            )
            &&& *final(app) == (App { outbox: final(app).outbox, ..*old(app) })
        },
        has_prefix(address@, "0x"@) ==> {
            &&& final(app).address_book@ == old(app).address_book@.push(
                AddressEntry { label, address, notes },
            )
            &&& *final(app) == (App {
                address_book: final(app).address_book,
                address_book_dirty: true,
                ..*old(app)
            })
        },
{
    let a = chars_of(address.as_str());
    let ox = chars_of("0x");
    if !starts_with(&a, &ox) {
        app.outbox.push(WalletCmd::LookupIotaName { name: address, label, notes });
        return;
    }
    app.address_book.push(AddressEntry { label, address, notes });
    app.address_book_dirty = true;
}

/// An edited saved entry replaces the one selected.
fn edit_address_entry(app: &mut App, label: String, address: String, notes: String)
    ensures
        match old(app).user_index(old(app).address_selected) {
            Some(u) => {
                &&& final(app).address_book@ == if u < old(app).address_book@.len() {
                    old(app).address_book@.update(u as int, AddressEntry { label, address, notes })
                } else {
                    old(app).address_book@
                }
                &&& *final(app) == (App {
                    address_book: final(app).address_book,
                    address_book_dirty: true,
                    ..*old(app)
                })
            },
            None => *final(app) == *old(app),
        },
{
    let u = match app.user_address_index(app.address_selected) {
        Some(u) => u,
        None => return,
    };
    let mut book: Vec<AddressEntry> = Vec::new();
    std::mem::swap(&mut book, &mut app.address_book);
    if u < book.len() {
        book.set(u, AddressEntry { label, address, notes });
    }
    app.address_book = book;
    app.address_book_dirty = true;
}

fn submit_address_form(app: &mut App)
    requires
        old(app).address_form_ok(),
    ensures
        final(app).address_form_submitted(old(app)),
{
    let f = app.address_edit_field;
    let val = app.input_buffer.clone();
    set_address_field(app, f, val);
    let label = app.address_edit_buffers[0].clone();
    let address = app.address_edit_buffers[1].clone();
    let notes = app.address_edit_buffers[2].clone();
    let ghost stored = *app;
    apply_address_entry(app, label, address, notes);
    app.popup = None;
    app.input_mode = InputMode::Normal;
    app.input_clear();
    proof {
        reveal(App::address_form_submitted);
        reveal(App::entry_applied);
    }
}

fn handle_address_form_key(app: &mut App, key: Key)
    requires
        old(app).popup == Some(Popup::AddAddress) || old(app).popup == Some(Popup::EditAddress),
        old(app).address_form_ok(),
    ensures
        final(app).address_form_key(old(app), key),
{
    if handle_button_focus_key(app, key) {
        proof {
            reveal(App::address_form_key);
        }
        return;
    }
    let focus = app.popup_focus;
    match key {
        Key::Esc => {
            if focus != PopupFocus::Fields {
                app.popup_focus = PopupFocus::Fields;
            } else {
                close_input_popup(app, false);
            }
        },
        Key::Tab => match focus {
            PopupFocus::Fields => advance_address_field(app),
            PopupFocus::Submit => {
                app.popup_focus = PopupFocus::Cancel;
            },
            PopupFocus::Cancel => edit_address_field(app, 0),
        },
        Key::BackTab => match focus {
            PopupFocus::Fields => back_address_field(app),
            PopupFocus::Submit => edit_address_field(app, 2),
            PopupFocus::Cancel => {
                app.popup_focus = PopupFocus::Submit;
            },
        },
        Key::Enter => match focus {
            PopupFocus::Fields => advance_address_field(app),
            PopupFocus::Submit => submit_address_form(app),
            PopupFocus::Cancel => close_input_popup(app, false),
        },
        _ => {
            if focus == PopupFocus::Fields {
                handle_input_key(app, key);
            }
        },
    }
    proof {
        reveal(App::address_form_key);
    }
}

// ── Actions menu ─────────────────────────────────────────────────

/// A hint that can be clicked: it has an action id.
pub open spec fn is_clickable(h: (Seq<char>, Seq<char>, Seq<char>)) -> bool {
    h.2.len() > 0
}

/// A hint as text.
pub open spec fn hint_view(h: (&'static str, &'static str, &'static str)) -> (Seq<char>, Seq<char>, Seq<char>) {
    (h.0@, h.1@, h.2@)
}

/// A list of hints as text.
pub open spec fn hints_view(v: Seq<(&'static str, &'static str, &'static str)>) -> Seq<
    (Seq<char>, Seq<char>, Seq<char>),
> {
    v.map_values(|h: (&'static str, &'static str, &'static str)| hint_view(h))
}

/// The hints of a screen that can be clicked (those with an action id).
pub open spec fn clickable_hints(screen: Screen) -> Seq<(Seq<char>, Seq<char>, Seq<char>)> {
    hint_table(screen).filter(|h: (Seq<char>, Seq<char>, Seq<char>)| is_clickable(h))
}

/// The first clickable hint whose key label is the character `c`.
pub open spec fn hint_for_char(hs: Seq<(Seq<char>, Seq<char>, Seq<char>)>, c: char) -> Option<nat> {
    first_index(hs.len(), |j: int| hs[j].0 == seq![c])
}

impl App {
    /// The actions menu handled `key`; `hint` is the action the program
    /// then runs (as a click on that hint would).
    #[verifier::opaque]
    pub open spec fn menu_key(&self, o: &App, key: Key, hint: Option<&'static str>) -> bool {
        let hs = clickable_hints(o.screen);
        let sel = o.action_menu_selected;
        if key == Key::Esc || key == Key::Char('.') {
            hint is None && *self == (App { popup: None, ..*o })
        } else if key == Key::Up {
            hint is None && *self == (App {
                action_menu_selected: if sel > 0 {
                    (sel - 1) as usize
                } else {
                    sel
                },
                ..*o
            })
        } else if key == Key::Down {
            hint is None && *self == (App {
                action_menu_selected: if sel + 1 < hs.len() {
                    (sel + 1) as usize
                } else {
                    sel
                },
                ..*o
            })
        } else if key == Key::Enter {
            if sel < hs.len() {
                hint matches Some(id) && id@ == hs[sel as int].2 && *self == (App { popup: None, ..*o })
            } else {
                hint is None && *self == *o
            }
        } else {
            match key {
                Key::Char(c) => match hint_for_char(hs, c) {
                    Some(j) => hint matches Some(id) && id@ == hs[j as int].2 && *self == (App {
                        popup: None,
                        ..*o
                    }),
                    None => hint is None && *self == *o,
                },
                _ => hint is None && *self == *o,
            }
        }
    }
}

/// The clickable hints of a screen.
pub(crate) fn clickable_hints_of(screen: Screen) -> (r: Vec<(&'static str, &'static str, &'static str)>)
    ensures
        hints_view(r@) == clickable_hints(screen),
{
    let hints = screen_hints(screen);
    let ghost all = hint_table(screen);
    let mut r: Vec<(&'static str, &'static str, &'static str)> = Vec::new();
    assert(all.take(0) =~= Seq::<(Seq<char>, Seq<char>, Seq<char>)>::empty());
    for i in 0..hints.len()
        invariant
            all == hint_table(screen),
            hints@.len() == all.len(),
            forall|j: int| 0 <= j < hints@.len() ==> hint_view(hints@[j]) == #[trigger] all[j],
            hints_view(r@) == all.take(i as int).filter(
                |h: (Seq<char>, Seq<char>, Seq<char>)| is_clickable(h),
            ),
    {
        let ghost before = r@;
        proof {
            assert(all.take(i + 1).drop_last() =~= all.take(i as int));
            reveal_with_fuel(Seq::filter, 1);
        }
        let h = hints[i];
        assert(hint_view(h) == all[i as int]);
        if !h.2.is_empty() {
            r.push(h);
        }
        assert(hints_view(r@) =~= all.take(i + 1).filter(
            |h: (Seq<char>, Seq<char>, Seq<char>)| is_clickable(h),
        ));
    }
    assert(all.take(all.len() as int) =~= all);
    r
}

/// The first hint whose key label is `c`.
fn find_hint_for_char(hs: &Vec<(&'static str, &'static str, &'static str)>, c: char) -> (r: Option<usize>)
    ensures
        ({
            match hint_for_char(hints_view(hs@), c) {
                Some(j) => j < hs@.len() && r == Some(j as usize),
                None => r is None,
            }
        }),
        r matches Some(j) ==> j < hs@.len(),
{
    let ghost view = hints_view(hs@);
    for j in 0..hs.len()
        invariant
            view == hints_view(hs@),
            first_index(j as nat, |k: int| view[k].0 == seq![c]) is None,
    {
        let label = chars_of(hs[j].0);
        assert(view[j as int].0 == label@);
        if label.len() == 1 && label[0] == c {
            proof {
                assert(label@ =~= seq![c]);
                crate::seqs::lemma_first_index_found(view.len(), |k: int| view[k].0 == seq![c], j as nat);
            }
            return Some(j);
        }
        proof {
            if view[j as int].0 == seq![c] {
                assert(label@.len() == 1 && label@[0] == c);
            }
        }
    }
    None
}

fn handle_menu_key(app: &mut App, key: Key) -> (hint: Option<&'static str>)
    ensures
        final(app).menu_key(old(app), key, hint),
{
    if key == Key::Esc || key == Key::Char('.') {
        app.popup = None;
        proof {
            reveal(App::menu_key);
        }
        return None;
    }
    match key {
        Key::Up | Key::Down => {
            menu_move(app, key);
            None
        },
        Key::Enter => menu_enter(app),
        Key::Char(c) => menu_char(app, c),
        _ => {
            proof {
                reveal(App::menu_key);
            }
            None
        },
    }
}

fn menu_move(app: &mut App, key: Key)
    requires
        key == Key::Up || key == Key::Down,
    ensures
        final(app).menu_key(old(app), key, None),
{
    let hs = clickable_hints_of(app.screen);
    let sel = app.action_menu_selected;
    let next = if key == Key::Up {
        if sel > 0 {
            sel - 1
        } else {
            sel
        }
    } else if sel < hs.len() && sel + 1 < hs.len() {
        sel + 1
    } else {
        sel
    };
    app.action_menu_selected = next;
    proof {
        reveal(App::menu_key);
    }
}

fn menu_enter(app: &mut App) -> (hint: Option<&'static str>)
    ensures
        final(app).menu_key(old(app), Key::Enter, hint),
{
    let hs = clickable_hints_of(app.screen);
    let sel = app.action_menu_selected;
    if sel < hs.len() {
        let id = hs[sel].2;
        assert(id@ == hints_view(hs@)[sel as int].2);
        app.popup = None;
        proof {
            reveal(App::menu_key);
        }
        return Some(id);
    }
    proof {
        reveal(App::menu_key);
    }
    None
}

fn menu_char(app: &mut App, c: char) -> (hint: Option<&'static str>)
    requires
        c != '.',
    ensures
        final(app).menu_key(old(app), Key::Char(c), hint),
{
    let hs = clickable_hints_of(app.screen);
    match find_hint_for_char(&hs, c) {
        Some(j) => {
            let id = hs[j].2;
            assert(id@ == hints_view(hs@)[j as int].2);
            app.popup = None;
            proof {
                reveal(App::menu_key);
            }
            Some(id)
        },
        None => {
            proof {
                reveal(App::menu_key);
            }
            None
        },
    }
}

// ── Dispatch ─────────────────────────────────────────────────────

impl App {
    /// What the open popup's key handling relies on (see the handlers).
    pub open spec fn popup_keys_ok(&self) -> bool {
        match self.popup {
            Some(p) => if p == Popup::AddAddress || p == Popup::EditAddress {
                self.address_form_ok()
            } else if is_line_popup(p) {
                self.input_ok()
            } else if p == Popup::AddCommandForm {
                self.form_ok()
            } else {
                true
            },
            None => true,
        }
    }

    /// The open popup handled `key` (see each popup's predicate); `hint`
    /// is an action of the actions menu for the program to run. Popups
    /// whose keys are handled elsewhere ignore the key.
    #[verifier::opaque]
    pub open spec fn popup_key_handled(&self, o: &App, key: Key, hint: Option<&'static str>) -> bool {
        match o.popup {
            None => hint is None && *self == *o,
            Some(p) => if p == Popup::ActionsMenu {
                self.menu_key(o, key, hint)
            } else {
                &&& hint is None
                &&& if p == Popup::Help || p == Popup::Detail || p == Popup::ErrorLog {
                    self.text_popup_key(o, key)
                } else if p == Popup::AddAddress || p == Popup::EditAddress {
                    self.address_form_key(o, key)
                } else if p == Popup::AddCommand {
                    self.add_command_popup_key(o, key)
                } else if p == Popup::AddCommandForm {
                    self.command_form_key(o, key)
                } else if p == Popup::GenerateKey {
                    self.generate_key_popup_key(o, key)
                } else if is_line_popup(p) {
                    self.line_popup_key(o, key)
                } else if p == Popup::SwitchNetwork {
                    self.switch_network_popup_key(o, key)
                } else if p == Popup::ConfirmDeleteKey {
                    self.delete_key_popup_key(o, key)
                } else if p == Popup::ConfirmDeleteAddress || p == Popup::ConfirmClearTx || p
                    == Popup::ConfirmQuit {
                    self.confirm_popup_key(o, key)
                } else {
                    *self == *o
                }
            },
        }
    }
}

/// Dispatch keyboard events when a popup is open. Returns the action the
/// actions menu picked, for the program to run.
pub fn handle_popup_key(app: &mut App, key: Key) -> (hint: Option<&'static str>)
    requires
        old(app).popup_keys_ok(),
    ensures
        final(app).popup_key_handled(old(app), key, hint),
{
    let p = match app.popup {
        Some(p) => p,
        None => {
            proof {
                reveal(App::popup_key_handled);
            }
            return None;
        },
    };
    if p == Popup::ActionsMenu {
        let hint = handle_menu_key(app, key);
        proof {
            reveal(App::popup_key_handled);
        }
        return hint;
    }
    if p == Popup::Help || p == Popup::Detail || p == Popup::ErrorLog {
        handle_text_popup_key(app, key);
    } else if p == Popup::AddAddress || p == Popup::EditAddress {
        handle_address_form_key(app, key);
    } else if p == Popup::AddCommand {
        handle_add_command_popup_key(app, key);
    } else if p == Popup::AddCommandForm {
        crate::command_form::handle_command_form_key(app, key);
    } else if p == Popup::GenerateKey {
        handle_generate_key_popup_key(app, key);
    } else if p == Popup::GenerateKeyAlias || p == Popup::ImportKey || p == Popup::RenameKey || p
        == Popup::LookupIotaName {
        handle_line_popup_key(app, key);
    } else if p == Popup::SwitchNetwork {
        handle_switch_network_popup_key(app, key);
    } else if p == Popup::ConfirmDeleteKey {
        handle_delete_key_popup_key(app, key);
    } else if p == Popup::ConfirmDeleteAddress || p == Popup::ConfirmClearTx || p
        == Popup::ConfirmQuit {
        handle_confirm_popup_key(app, key);
    }
    proof {
        reveal(App::popup_key_handled);
    }
    None
}

} // verus!
