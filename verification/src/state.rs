//! Central application state shared between the event handlers and the
//! renderer, and the operations that change it. Commands for the network
//! backend are queued in `outbox`; the program delivers them.

use vstd::prelude::*;
use crate::explorer::ExplorerState;
use crate::tx_builder::TxBuilderState;
use crate::types::{
    AddressEntry, CoinDisplay, ContextMenu, InputMode, KeyDisplay, ModuleFunctionDisplay,
    ObjectDisplay, PackageBrowserView, PackageModuleDisplay, Popup, PopupFocus, PortfolioSummary,
    Screen, Section, SettingsTab, StakeDisplay, TransactionDisplay,
};
use crate::wallet::{StoredKey, WalletCmd};

verus! {

/// Central application state.
pub struct App {
    pub running: bool,
    pub screen: Screen,
    pub input_mode: InputMode,
    pub input_buffer: String,
    /// Byte offset of the cursor in `input_buffer`.
    pub input_cursor: usize,
    pub popup: Option<Popup>,
    // Grid view state
    pub focused_section: Section,
    pub section_open: Option<Section>,
    pub context_menu: Option<ContextMenu>,
    pub search_focused: bool,
    pub search_buffer: String,
    /// Viewing an external entity's data (None = own address).
    pub exploring: Option<String>,
    pub return_to_section: Option<Section>,
    pub settings_tab: SettingsTab,
    pub tx_builder_open: bool,
    // Network state
    pub connected: bool,
    pub network_name: String,
    pub loading: bool,
    /// Commands waiting to be sent to the wallet backend, oldest first.
    pub outbox: Vec<WalletCmd>,
    /// The address book changed and should be saved.
    pub address_book_dirty: bool,
    // Per-screen data
    pub coins: Vec<CoinDisplay>,
    pub coins_selected: usize,
    pub coins_offset: usize,
    pub total_balance_iota: u128,
    pub coins_filter: Option<String>,
    pub objects: Vec<ObjectDisplay>,
    pub objects_selected: usize,
    pub objects_offset: usize,
    pub objects_filter: Option<String>,
    pub transactions: Vec<TransactionDisplay>,
    pub transactions_selected: usize,
    pub transactions_offset: usize,
    pub transactions_filter: Option<String>,
    pub packages_selected: usize,
    pub packages_offset: usize,
    pub pkg_view: PackageBrowserView,
    pub pkg_selected_id: String,
    pub pkg_selected_module: String,
    pub pkg_modules: Vec<PackageModuleDisplay>,
    pub pkg_modules_selected: usize,
    pub pkg_modules_offset: usize,
    pub pkg_functions: Vec<ModuleFunctionDisplay>,
    pub pkg_functions_selected: usize,
    pub pkg_functions_offset: usize,
    pub stakes: Vec<StakeDisplay>,
    pub stakes_selected: usize,
    pub stakes_offset: usize,
    pub address_book: Vec<AddressEntry>,
    pub address_selected: usize,
    pub address_offset: usize,
    pub address_edit_field: usize,
    pub address_edit_buffers: [String; 3],
    pub keys: Vec<KeyDisplay>,
    pub keys_selected: usize,
    pub keys_offset: usize,
    pub keys_show_private: bool,
    pub keys_gen_scheme: Option<String>,
    pub tx: TxBuilderState,
    pub explorer: ExplorerState,
    /// Autocomplete suggestions: (alias/label, address/object_id).
    pub autocomplete: Vec<(String, String)>,
    pub autocomplete_idx: Option<usize>,
    pub error_log_lines: Vec<String>,
    pub popup_scroll: usize,
    pub popup_focus: PopupFocus,
    pub action_menu_selected: usize,
    /// Visible rows in the content area (updated each frame).
    pub content_visible_rows: usize,
    pub content_area_y: u16,
    pub nav_idx: usize,
    pub color_phase: u32,
    /// Short notice for the user (the program dismisses it after a while).
    pub clipboard_toast: Option<String>,
    /// 0 = recipient, 1 = amount
    pub quick_transfer_field: usize,
    pub quick_transfer_buffers: [String; 2],
    /// Merge popup: (object_id, symbol, balance_display, selected).
    pub merge_candidates: Vec<(String, String, String, bool)>,
    pub merge_cursor: usize,
    pub coins_summary_mode: bool,
    pub portfolio_summary: Vec<PortfolioSummary>,
    pub portfolio_selected: usize,
    pub portfolio_offset: usize,
    pub portfolio_expanded: Option<usize>,
}

// ── Hex encoding (hex crate) ──────────────────────────────────────

pub open spec fn hex_digit(n: nat) -> char {
    if n < 10 {
        (n + 48) as char
    } else {
        (n + 87) as char
    }
}

/// Lowercase hexadecimal: two digits per byte, high nibble first.
pub open spec fn hex_lower(bytes: Seq<u8>) -> Seq<char>
    decreases bytes.len(),
{
    if bytes.len() == 0 {
        Seq::empty()
    } else {
        hex_lower(bytes.drop_last()) + seq![
            hex_digit((bytes.last() / 16) as nat),
            hex_digit((bytes.last() % 16) as nat),
        ]
    }
}

/// `hex::encode`: the bytes as lowercase hexadecimal, two digits each.
#[verifier::external_body]
fn hex_encode(bytes: &Vec<u8>) -> (r: String)
    ensures
        r@ == hex_lower(bytes@),
{
    hex::encode(bytes)
}

/// The key row shown for a stored key.
pub open spec fn key_display_of(k: StoredKey, d: KeyDisplay) -> bool {
    &&& d.alias == k.alias
    &&& d.address == k.address
    &&& d.scheme == k.scheme
    &&& d.is_active == k.is_active
    &&& d.visible
    &&& d.private_key_hex@ == hex_lower(k.private_key_bytes@)
}

impl App {
    /// The state the program starts in, given the stored keys, the saved
    /// address book and the saved theme phase.
    pub open spec fn is_initial(&self, keys: Seq<StoredKey>, book: Seq<AddressEntry>, phase: u32) -> bool {
        &&& self.running
        &&& self.screen == Screen::Coins
        &&& self.input_mode == InputMode::Normal
        &&& self.input_buffer@.len() == 0
        &&& self.input_cursor == 0
        &&& self.popup is None
        &&& self.focused_section == Section::Coins
        &&& self.section_open is None
        &&& self.context_menu is None
        &&& !self.search_focused
        &&& self.exploring is None
        &&& self.settings_tab == SettingsTab::Keys
        &&& !self.tx_builder_open
        &&& !self.connected
        &&& self.network_name@ == "disconnected"@
        &&& !self.loading
        &&& self.outbox@.len() == 0
        &&& self.coins@.len() == 0
        &&& self.objects@.len() == 0
        &&& self.transactions@.len() == 0
        &&& self.stakes@.len() == 0
        &&& self.total_balance_iota == 0
        &&& self.address_book@ == book
        &&& self.keys@.len() == keys.len()
        &&& forall|i: int| 0 <= i < keys.len() ==> key_display_of(keys[i], #[trigger] self.keys@[i])
        &&& self.tx.is_reset()
        &&& self.explorer.is_fresh()
        &&& self.color_phase == phase
        &&& self.content_visible_rows == 20
        &&& self.clipboard_toast is None
        &&& !self.coins_summary_mode
    }

    pub fn new(initial_keys: Vec<StoredKey>, address_book: Vec<AddressEntry>, color_phase: u32) -> (app: App)
        ensures
            app.is_initial(initial_keys@, address_book@, color_phase),
    {
        let mut keys: Vec<KeyDisplay> = Vec::new();
        for i in 0..initial_keys.len()
            invariant
                keys@.len() == i,
                forall|j: int| 0 <= j < i ==> key_display_of(initial_keys@[j], #[trigger] keys@[j]),
        {
            let k = &initial_keys[i];
            keys.push(
                KeyDisplay {
                    alias: k.alias.clone(),
                    address: k.address.clone(),
                    scheme: k.scheme.clone(),
                    is_active: k.is_active,
                    visible: true,
                    private_key_hex: hex_encode(&k.private_key_bytes),
                },
            );
        }
        App {
            running: true,
            screen: Screen::Coins,
            input_mode: InputMode::Normal,
            input_buffer: String::new(),
            input_cursor: 0,
            popup: None,
            focused_section: Section::Coins,
            section_open: None,
            context_menu: None,
            search_focused: false,
            search_buffer: String::new(),
            exploring: None,
            return_to_section: None,
            settings_tab: SettingsTab::Keys,
            tx_builder_open: false,
            connected: false,
            network_name: crate::text::owned("disconnected"),
            loading: false,
            outbox: Vec::new(),
            address_book_dirty: false,
            coins: Vec::new(),
            coins_selected: 0,
            coins_offset: 0,
            total_balance_iota: 0,
            coins_filter: None,
            objects: Vec::new(),
            objects_selected: 0,
            objects_offset: 0,
            objects_filter: None,
            transactions: Vec::new(),
            transactions_selected: 0,
            transactions_offset: 0,
            transactions_filter: None,
            packages_selected: 0,
            packages_offset: 0,
            pkg_view: PackageBrowserView::List,
            pkg_selected_id: String::new(),
            pkg_selected_module: String::new(),
            pkg_modules: Vec::new(),
            pkg_modules_selected: 0,
            pkg_modules_offset: 0,
            pkg_functions: Vec::new(),
            pkg_functions_selected: 0,
            pkg_functions_offset: 0,
            stakes: Vec::new(),
            stakes_selected: 0,
            stakes_offset: 0,
            address_book,
            address_selected: 0,
            address_offset: 0,
            address_edit_field: 0,
            address_edit_buffers: [String::new(), String::new(), String::new()],
            keys,
            keys_selected: 0,
            keys_offset: 0,
            keys_show_private: false,
            keys_gen_scheme: None,
            tx: TxBuilderState::default(),
            explorer: ExplorerState::default(),
            autocomplete: Vec::new(),
            autocomplete_idx: None,
            error_log_lines: Vec::new(),
            popup_scroll: 0,
            popup_focus: PopupFocus::Fields,
            action_menu_selected: 0,
            content_visible_rows: 20,
            content_area_y: 2,
            nav_idx: 0,
            color_phase,
            clipboard_toast: None,
            quick_transfer_field: 0,
            quick_transfer_buffers: [String::new(), String::new()],
            merge_candidates: Vec::new(),
            merge_cursor: 0,
            coins_summary_mode: false,
            portfolio_summary: Vec::new(),
            portfolio_selected: 0,
            portfolio_offset: 0,
            portfolio_expanded: None,
        }
    }

    /// Queue a command for the wallet backend.
    pub fn send_cmd(&mut self, cmd: WalletCmd)
        ensures
            final(self).outbox@ == old(self).outbox@.push(cmd),
            *final(self) == (App { outbox: final(self).outbox, ..*old(self) }),
    {
        self.outbox.push(cmd);
    }

    /// Number of keys with visibility enabled.
    pub open spec fn spec_visible_key_count(&self) -> nat {
        self.keys@.filter(|k: KeyDisplay| k.visible).len()
    }

    pub fn visible_key_count(&self) -> (n: usize)
        ensures
            n as nat == self.spec_visible_key_count(),
    {
        let mut n: usize = 0;
        let ghost ks = self.keys@;
        assert(ks.take(0) =~= Seq::<KeyDisplay>::empty());
        for i in 0..self.keys.len()
            invariant
                ks == self.keys@,
                n as nat == ks.take(i as int).filter(|k: KeyDisplay| k.visible).len(),
                n <= i,
        {
            proof {
                assert(ks.take(i + 1).drop_last() =~= ks.take(i as int));
                reveal_with_fuel(Seq::filter, 1);
            }
            if self.keys[i].visible {
                n = n + 1;
            }
        }
        assert(ks.take(ks.len() as int) =~= ks);
        n
    }

    /// Returns true when multiple keys are visible (show Owner column).
    pub fn show_multiple_owners(&self) -> (b: bool)
        ensures
            b == (self.spec_visible_key_count() > 1),
    {
        self.visible_key_count() > 1
    }

    /// Index of the first active key.
    pub open spec fn spec_active_index(&self) -> Option<nat> {
        crate::seqs::first_index(self.keys@.len(), |i: int| self.keys@[i].is_active)
    }

    /// The first key marked active.
    pub fn active_key(&self) -> (r: Option<&KeyDisplay>)
        ensures
            r is None <==> self.spec_active_index() is None,
            r matches Some(k) ==> self.spec_active_index() matches Some(i) && *k == self.keys@[i as int],
    {
        for i in 0..self.keys.len()
            invariant
                crate::seqs::first_index(i as nat, |i: int| self.keys@[i].is_active) is None,
        {
            if self.keys[i].is_active {
                proof {
                    crate::seqs::lemma_first_index_found(
                        self.keys@.len(),
                        |i: int| self.keys@[i].is_active,
                        i as nat,
                    );
                }
                return Some(&self.keys[i]);
            }
        }
        None
    }

    pub fn key_entry_count(&self) -> (n: usize)
        ensures
            n == self.keys@.len(),
    {
        self.keys.len()
    }

    pub open spec fn spec_scroll_into_view(selected: nat, offset: nat, visible_rows: nat) -> nat {
        if visible_rows == 0 {
            offset
        } else if selected < offset {
            selected
        } else if selected >= offset + visible_rows {
            (selected - visible_rows + 1) as nat
        } else {
            offset
        }
    }

    /// Adjust a scroll offset so that `selected` is visible within `visible_rows`.
    pub fn scroll_into_view(selected: usize, offset: &mut usize, visible_rows: usize)
        requires
            *old(offset) + visible_rows <= usize::MAX,
        ensures
            *final(offset) as nat == Self::spec_scroll_into_view(
                selected as nat,
                *old(offset) as nat,
                visible_rows as nat,
            ),
    {
        if visible_rows == 0 {
            return ;
        }
        if selected < *offset {
            *offset = selected;
        } else if selected >= *offset + visible_rows {
            *offset = selected - visible_rows + 1;
        }
    }

    pub fn open_popup(&mut self, popup: Popup)
        ensures
            *final(self) == (App {
                popup: Some(popup),
                popup_scroll: 0,
                popup_focus: PopupFocus::Fields,
                ..*old(self)
            }),
    {
        self.popup = Some(popup);
        self.popup_scroll = 0;
        self.popup_focus = PopupFocus::Fields;
    }

    /// Switch screens: close popups, leave editing, clear list filters; the
    /// explorer asks for fresh network figures.
    pub fn navigate(&mut self, screen: Screen)
        ensures
            *final(self) == (App {
                screen,
                input_mode: InputMode::Normal,
                popup: None,
                popup_scroll: 0,
                coins_filter: None,
                objects_filter: None,
                transactions_filter: None,
                outbox: final(self).outbox,
                ..*old(self)
            }),
            final(self).outbox@ == if screen == Screen::Explorer {
                old(self).outbox@.push(WalletCmd::RefreshNetworkOverview)
            } else {
                old(self).outbox@
            },
    {
        self.screen = screen;
        self.input_mode = InputMode::Normal;
        self.popup = None;
        self.popup_scroll = 0;
        self.coins_filter = None;
        self.objects_filter = None;
        self.transactions_filter = None;
        if screen == Screen::Explorer {
            self.send_cmd(WalletCmd::RefreshNetworkOverview);
        }
    }
}

/// Scrolling a selection into view leaves it on screen.
pub proof fn lemma_scroll_into_view_shows_selection(selected: nat, offset: nat, visible_rows: nat)
    requires
        visible_rows > 0,
    ensures
        ({
            let o = App::spec_scroll_into_view(selected, offset, visible_rows);
            o <= selected < o + visible_rows
        }),
{
}

} // verus!
