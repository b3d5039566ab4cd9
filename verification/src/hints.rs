//! Clicks on the key hints of the status bar (the actions menu offers the
//! same hints): each hint names an action of the screen on show.

use vstd::prelude::*;
use crate::actions::merge_candidates_of;
use crate::jumps::{blank_move_call, builder_with, only_active};
use crate::portfolio::{summary_of, type_totals_fit};
use crate::state::App;
use crate::text::{byte_len, str_eq};
use crate::tx_builder::TxBuilderState;
use crate::types::{
    InputMode, KeyDisplay, PackageBrowserView, Popup, PopupFocus, PtbCommand, Screen,
    TxBuilderStep,
};
use crate::wallet::WalletCmd;

verus! {

/// What a hint click leaves to the program around the library.
pub enum HintRequest {
    /// Nothing.
    Done,
    /// Copy the selected item to the clipboard.
    Copy,
    /// Export the list on screen to a CSV file.
    Export,
    /// Ask the faucet for coins for this address, once it parses as one.
    Faucet(String),
}

impl App {
    /// `p` was opened over `o`.
    pub open spec fn popup_opened(&self, o: &App, p: Popup) -> bool {
        *self == (App {
            popup: Some(p),
            popup_scroll: 0,
            popup_focus: PopupFocus::Fields,
            ..*o
        })
    }

    /// `p` was opened over `o` with the input line holding `text`, the
    /// cursor at its end.
    pub open spec fn popup_with_input(&self, o: &App, p: Popup, text: Seq<char>) -> bool {
        &&& self.input_buffer@ == text
        &&& self.input_cursor == byte_len(text)
        &&& *self == (App {
            popup: Some(p),
            popup_scroll: 0,
            popup_focus: PopupFocus::Fields,
            input_mode: InputMode::Editing,
            input_buffer: self.input_buffer,
            input_cursor: self.input_cursor,
            ..*o
        })
    }

    /// `explore_type(v)` was done.
    pub open spec fn type_explored(&self, o: &App, v: String) -> bool {
        &&& self.explorer.search_reset_of(&o.explorer, v@)
        &&& self.outbox@ == o.outbox@.push(WalletCmd::SearchObjectsByType { type_filter: v, cursor: None })
        &&& *self == (App {
            screen: Screen::Explorer,
            input_mode: InputMode::Normal,
            popup: None,
            popup_scroll: 0,
            explorer: self.explorer,
            outbox: self.outbox,
            ..*o
        })
    }

    /// "explore": the selected row of the screen is looked up in the
    /// explorer (a coin, object, transaction, stake, package, address-book
    /// entry or key address).
    #[verifier::opaque]
    pub open spec fn explore_clicked(&self, o: &App) -> bool {
        match o.screen {
            Screen::Coins => if o.coins_selected < o.coins@.len() {
                self.explored(o, o.coins@[o.coins_selected as int].object_id)
            } else {
                *self == *o
            },
            Screen::Objects => if o.objects_selected < o.objects@.len() {
                self.explored(o, o.objects@[o.objects_selected as int].object_id)
            } else {
                *self == *o
            },
            Screen::Transactions => if o.transactions_selected < o.transactions@.len() {
                self.explored(o, o.transactions@[o.transactions_selected as int].digest)
            } else {
                *self == *o
            },
            Screen::Staking => if o.stakes_selected < o.stakes@.len() {
                self.explored(o, o.stakes@[o.stakes_selected as int].object_id)
            } else {
                *self == *o
            },
            Screen::Packages => {
                let p = o.spec_package_indices();
                if o.packages_selected < p.len() {
                    self.explored(o, o.objects@[p[o.packages_selected as int] as int].object_id)
                } else {
                    *self == *o
                }
            },
            Screen::AddressBook => match o.combined_address(o.address_selected as int) {
                Some(a) => self.explored(o, a),
                None => *self == *o,
            },
            Screen::Keys => if o.keys_selected < o.keys@.len() {
                self.explored(o, o.keys@[o.keys_selected as int].address)
            } else {
                *self == *o
            },
            _ => *self == *o,
        }
    }

    /// "type_search": the type of the selected coin or object is searched.
    #[verifier::opaque]
    pub open spec fn type_search_clicked(&self, o: &App) -> bool {
        match o.screen {
            Screen::Coins => if o.coins_selected < o.coins@.len() {
                self.type_explored(o, o.coins@[o.coins_selected as int].coin_type)
            } else {
                *self == *o
            },
            Screen::Objects => if o.objects_selected < o.objects@.len() {
                self.type_explored(o, o.objects@[o.objects_selected as int].object_type)
            } else {
                *self == *o
            },
            _ => *self == *o,
        }
    }

    /// "filter": an empty filter opens on the coin, object or transaction
    /// list, whose selection goes back to the top.
    #[verifier::opaque]
    pub open spec fn filter_clicked(&self, o: &App) -> bool {
        match o.screen {
            Screen::Coins => {
                &&& self.coins_filter matches Some(f) && f@.len() == 0
                &&& *self == (App {
                    coins_filter: self.coins_filter,
                    coins_selected: 0,
                    coins_offset: 0,
                    ..*o
                })
            },
            Screen::Objects => {
                &&& self.objects_filter matches Some(f) && f@.len() == 0
                &&& *self == (App {
                    objects_filter: self.objects_filter,
                    objects_selected: 0,
                    objects_offset: 0,
                    ..*o
                })
            },
            Screen::Transactions => {
                &&& self.transactions_filter matches Some(f) && f@.len() == 0
                &&& *self == (App {
                    transactions_filter: self.transactions_filter,
                    transactions_selected: 0,
                    transactions_offset: 0,
                    ..*o
                })
            },
            _ => *self == *o,
        }
    }

    /// The address-book entry under the cursor, when it is one of the
    /// user's (key addresses come first in the combined list).
    pub open spec fn selected_book_index(&self) -> Option<nat> {
        if self.address_selected >= self.keys@.len() && self.address_selected - self.keys@.len()
            < self.address_book@.len() {
            Some((self.address_selected - self.keys@.len()) as nat)
        } else {
            None
        }
    }

    /// "addr_add": the add-address form opens blank, on its first field.
    #[verifier::opaque]
    pub open spec fn addr_add_clicked(&self, o: &App) -> bool {
        &&& self.address_edit_buffers@.len() == 3
        &&& forall|i: int| 0 <= i < 3 ==> (#[trigger] self.address_edit_buffers@[i])@.len() == 0
        &&& self.popup_with_input(
            &App {
                address_edit_field: 0,
                address_edit_buffers: self.address_edit_buffers,
                ..*o
            },
            Popup::AddAddress,
            Seq::empty(),
        )
    }

    /// "addr_edit": the edit form opens on the selected entry of the user's
    /// address book, filled with its label, address and notes.
    #[verifier::opaque]
    pub open spec fn addr_edit_clicked(&self, o: &App) -> bool {
        match o.selected_book_index() {
            Some(i) => {
                let e = o.address_book@[i as int];
                &&& self.address_edit_buffers@ == seq![e.label, e.address, e.notes]
                &&& self.popup_with_input(
                    &App {
                        address_edit_field: 0,
                        address_edit_buffers: self.address_edit_buffers,
                        ..*o
                    },
                    Popup::EditAddress,
                    e.label@,
                )
            },
            None => *self == *o,
        }
    }

    /// "key_activate": what `activate_selected_key` does.
    #[verifier::opaque]
    pub open spec fn key_activate_clicked(&self, o: &App) -> bool {
        &&& o.keys_selected >= o.keys@.len() ==> *self == *o
        &&& o.keys_selected < o.keys@.len() ==> exists|mid: App|
            {
                &&& only_active(o.keys@, mid.keys@, o.keys_selected as nat)
                &&& mid.outbox@ == o.outbox@.push(WalletCmd::SetActiveKey(o.keys_selected))
                &&& mid == (App { keys: mid.keys, outbox: mid.outbox, ..*o })
                &&& #[trigger] self.refreshed(&mid)
            }
    }

    /// "key_visible": the selected key is shown or hidden, then everything
    /// is fetched again.
    #[verifier::opaque]
    pub open spec fn key_visible_clicked(&self, o: &App) -> bool {
        let k = o.keys_selected as int;
        &&& o.keys_selected >= o.keys@.len() ==> *self == *o
        &&& o.keys_selected < o.keys@.len() ==> exists|mid: App|
            {
                &&& mid.keys@ == o.keys@.update(k, KeyDisplay { visible: !o.keys@[k].visible, ..o.keys@[k] })
                &&& mid == (App { keys: mid.keys, ..*o })
                &&& #[trigger] self.refreshed(&mid)
            }
    }

    /// "tx_delete": the selected command is removed and the dry run marked
    /// stale; the selection steps back when it fell off the end.
    #[verifier::opaque]
    pub open spec fn tx_delete_clicked(&self, o: &App) -> bool {
        let cs = o.tx.commands@;
        let k = o.tx.cmd_selected;
        if cs.len() == 0 {
            *self == *o
        } else {
            &&& self.tx.commands@ == cs.remove(k as int)
            &&& *self == (App {
                tx: TxBuilderState {
                    commands: self.tx.commands,
                    dry_run_dirty: true,
                    cmd_selected: if k >= cs.len() - 1 && k > 0 {
                        (k - 1) as usize
                    } else {
                        k
                    },
                    ..o.tx
                },
                ..*o
            })
        }
    }

    /// "tx_clear": an empty builder is reset; else a confirmation opens.
    #[verifier::opaque]
    pub open spec fn tx_clear_clicked(&self, o: &App) -> bool {
        if o.tx.commands@.len() == 0 {
            &&& self.tx.is_reset()
            &&& self.tx.sender == o.tx.sender
            &&& *self == (App { tx: self.tx, ..*o })
        } else {
            self.popup_opened(o, Popup::ConfirmClearTx)
        }
    }

    /// "portfolio": the per-type summary of the coins is shown (when more
    /// than one account is visible) or hidden.
    #[verifier::opaque]
    pub open spec fn portfolio_clicked(&self, o: &App) -> bool {
        if o.coins_summary_mode {
            *self == (App { coins_summary_mode: false, ..*o })
        } else if o.spec_visible_key_count() > 1 {
            &&& summary_of(self.portfolio_summary@, o.coins@)
            &&& self.portfolio_selected == if o.portfolio_selected >= self.portfolio_summary@.len() {
                if self.portfolio_summary@.len() == 0 {
                    0
                } else {
                    (self.portfolio_summary@.len() - 1) as usize
                }
            } else {
                o.portfolio_selected
            }
            &&& *self == (App {
                coins_summary_mode: true,
                portfolio_summary: self.portfolio_summary,
                portfolio_selected: self.portfolio_selected,
                ..*o
            })
        } else {
            *self == *o
        }
    }

    /// "merge": what `merge_coins_for_selected` does.
    #[verifier::opaque]
    pub open spec fn merge_clicked(&self, o: &App) -> bool {
        if o.coins_selected < o.coins@.len() {
            let sel = o.coins@[o.coins_selected as int];
            let cands = merge_candidates_of(o.coins@, sel.coin_type@, sel.object_id@);
            if cands.len() < 2 {
                &&& self.clipboard_toast matches Some(t) && t@
                    == "Only one coin of this type — nothing to merge"@
                &&& *self == (App { clipboard_toast: self.clipboard_toast, ..*o })
            } else {
                &&& self.merge_candidates@ == cands
                &&& *self == (App {
                    merge_candidates: self.merge_candidates,
                    merge_cursor: 0,
                    popup: Some(Popup::MergeCoin),
                    popup_scroll: 0,
                    popup_focus: PopupFocus::Fields,
                    ..*o
                })
            }
        } else {
            *self == *o
        }
    }

    /// "quick_transfer": the quick-transfer form opens blank.
    #[verifier::opaque]
    pub open spec fn quick_transfer_clicked(&self, o: &App) -> bool {
        if o.coins@.len() == 0 {
            *self == *o
        } else {
            &&& self.quick_transfer_buffers@.len() == 2
            &&& forall|i: int| 0 <= i < 2 ==> (#[trigger] self.quick_transfer_buffers@[i])@.len() == 0
            &&& self.popup_with_input(
                &App {
                    quick_transfer_field: 0,
                    quick_transfer_buffers: self.quick_transfer_buffers,
                    ..*o
                },
                Popup::QuickTransfer,
                Seq::empty(),
            )
        }
    }

    /// "unstake": the builder holds one unstake of the selected stake, on the
    /// review step, and a dry run of it is asked for.
    #[verifier::opaque]
    pub open spec fn unstake_clicked(&self, o: &App) -> bool {
        if o.stakes_selected < o.stakes@.len() {
            let cmd = PtbCommand::Unstake {
                staked_iota_id: o.stakes@[o.stakes_selected as int].object_id,
            };
            &&& self.tx.commands@ == seq![cmd]
            &&& self.tx.step == TxBuilderStep::Review
            &&& self.tx.sender == o.tx.sender
            &&& self.tx.cmd_selected == 0
            &&& self.tx.gas_budget@ == crate::tx_builder::default_gas_budget()
            &&& self.tx.edit_field == 0
            &&& self.tx.edit_buffers@.len() == 0
            &&& self.tx.adding_cmd is None
            &&& self.tx.dry_run is None
            &&& self.tx.dry_running
            &&& !self.tx.dry_run_dirty
            &&& !self.tx.gas_edited
            &&& self.tx.multi_values@.len() == 0
            &&& self.outbox@.len() == o.outbox@.len() + 1
            &&& self.outbox@.take(o.outbox@.len() as int) == o.outbox@
            &&& self.outbox@.last() matches WalletCmd::DryRun { sender_idx, commands }
                && sender_idx == o.tx.sender && commands@ == seq![cmd]
            &&& *self == (App {
                tx: self.tx,
                screen: Screen::TxBuilder,
                input_mode: InputMode::Normal,
                popup: None,
                popup_scroll: 0,
                coins_filter: None,
                objects_filter: None,
                transactions_filter: None,
                outbox: self.outbox,
                ..*o
            })
        } else {
            *self == *o
        }
    }

    /// "pkg_browse": open the selected package or module, or start a call of
    /// the selected function.
    #[verifier::opaque]
    pub open spec fn pkg_browse_clicked(&self, o: &App) -> bool {
        match o.pkg_view {
            PackageBrowserView::List => {
                let p = o.spec_package_indices();
                if o.packages_selected < p.len() {
                    &&& self.outbox@ == o.outbox@.push(
                        WalletCmd::FetchPackageModules {
                            package_addr: o.objects@[p[o.packages_selected as int] as int].object_id,
                        },
                    )
                    &&& *self == (App { loading: true, outbox: self.outbox, ..*o })
                } else {
                    *self == *o
                }
            },
            PackageBrowserView::Modules => if o.pkg_modules_selected < o.pkg_modules@.len() {
                &&& self.outbox@ == o.outbox@.push(
                    WalletCmd::FetchModuleFunctions {
                        package_addr: o.pkg_selected_id,
                        module_name: o.pkg_modules@[o.pkg_modules_selected as int].name,
                    },
                )
                &&& *self == (App { loading: true, outbox: self.outbox, ..*o })
            } else {
                *self == *o
            },
            PackageBrowserView::Functions => if o.pkg_functions_selected < o.pkg_functions@.len() {
                let f = o.pkg_functions@[o.pkg_functions_selected as int];
                &&& builder_with(
                    self.tx,
                    |c: PtbCommand| blank_move_call(c, o.pkg_selected_id, o.pkg_selected_module, f),
                    o.tx.sender,
                )
                &&& *self == (App {
                    tx: self.tx,
                    section_open: None,
                    tx_builder_open: true,
                    screen: Screen::TxBuilder,
                    input_mode: InputMode::Normal,
                    popup: None,
                    ..*o
                })
            } else {
                *self == *o
            },
        }
    }

    /// "pkg_back": one level up in the package browser.
    #[verifier::opaque]
    pub open spec fn pkg_back_clicked(&self, o: &App) -> bool {
        match o.pkg_view {
            PackageBrowserView::Functions => *self == (App {
                pkg_view: PackageBrowserView::Modules,
                ..*o
            }),
            PackageBrowserView::Modules => *self == (App { pkg_view: PackageBrowserView::List, ..*o }),
            PackageBrowserView::List => *self == *o,
        }
    }
}

pub(crate) fn click_explore(app: &mut App)
    ensures
        final(app).explore_clicked(old(app)),
{
    proof {
        reveal(App::explore_clicked);
    }
    match app.screen {
        Screen::Coins => app.activate_selected_coin(),
        Screen::Objects => app.activate_selected_object(),
        Screen::Transactions => app.activate_selected_transaction(),
        Screen::Staking => {
            if app.stakes_selected < app.stakes.len() {
                let id = app.stakes[app.stakes_selected].object_id.clone();
                app.explore_item(id);
            }
        },
        Screen::Packages => app.activate_selected_package(),
        Screen::AddressBook => app.activate_selected_address(),
        Screen::Keys => {
            if app.keys_selected < app.keys.len() {
                let a = app.keys[app.keys_selected].address.clone();
                app.explore_item(a);
            }
        },
        _ => {},
    }
}

pub(crate) fn click_type_search(app: &mut App)
    ensures
        final(app).type_search_clicked(old(app)),
{
    proof {
        reveal(App::type_search_clicked);
    }
    match app.screen {
        Screen::Coins => {
            if app.coins_selected < app.coins.len() {
                let t = app.coins[app.coins_selected].coin_type.clone();
                app.explore_type(t);
            }
        },
        Screen::Objects => {
            if app.objects_selected < app.objects.len() {
                let t = app.objects[app.objects_selected].object_type.clone();
                app.explore_type(t);
            }
        },
        _ => {},
    }
}

#[verifier::rlimit(60)]
pub(crate) fn click_filter(app: &mut App)
    ensures
        final(app).filter_clicked(old(app)),
{
    proof {
        reveal(App::filter_clicked);
    }
    match app.screen {
        Screen::Coins => {
            app.coins_filter = Some(String::new());
            app.coins_selected = 0;
            app.coins_offset = 0;
            return ;
        },
        Screen::Objects => {
            app.objects_filter = Some(String::new());
            app.objects_selected = 0;
            app.objects_offset = 0;
            return ;
        },
        Screen::Transactions => {
            app.transactions_filter = Some(String::new());
            app.transactions_selected = 0;
            app.transactions_offset = 0;
            return ;
        },
        _ => {},
    }
}

pub(crate) fn click_addr_add(app: &mut App)
    ensures
        final(app).addr_add_clicked(old(app)),
{
    proof {
        reveal(App::addr_add_clicked);
        reveal_strlit("");
    }
    app.address_edit_field = 0;
    app.address_edit_buffers = [String::new(), String::new(), String::new()];
    assert(app.address_edit_buffers@.len() == 3);
    assert(forall|i: int| 0 <= i < 3 ==> (#[trigger] app.address_edit_buffers@[i])@.len() == 0);
    app.open_popup(Popup::AddAddress);
    app.start_input("");
    assert(""@ =~= Seq::<char>::empty());
}

pub(crate) fn click_addr_edit(app: &mut App)
    requires
        old(app).selected_book_index() matches Some(i) ==> byte_len(
            old(app).address_book@[i as int].label@,
        ) + 4 <= usize::MAX,
    ensures
        final(app).addr_edit_clicked(old(app)),
{
    proof {
        reveal(App::addr_edit_clicked);
    }
    match app.user_address_index(app.address_selected) {
        Some(i) => {
            if i < app.address_book.len() {
                let label = app.address_book[i].label.clone();
                let address = app.address_book[i].address.clone();
                let notes = app.address_book[i].notes.clone();
                app.address_edit_field = 0;
                app.address_edit_buffers = [label.clone(), address, notes];
                app.open_popup(Popup::EditAddress);
                app.start_input(label.as_str());
            }
        },
        None => {},
    }
}

pub(crate) fn click_addr_delete(app: &mut App)
    ensures
        if old(app).selected_book_index() is Some {
            final(app).popup_opened(old(app), Popup::ConfirmDeleteAddress)
        } else {
            *final(app) == *old(app)
        },
{
    match app.user_address_index(app.address_selected) {
        Some(i) => {
            if i < app.address_book.len() {
                app.open_popup(Popup::ConfirmDeleteAddress);
            }
        },
        None => {},
    }
}

pub(crate) fn click_key_activate(app: &mut App)
    ensures
        final(app).key_activate_clicked(old(app)),
{
    proof {
        reveal(App::key_activate_clicked);
    }
    app.activate_selected_key();
}

pub(crate) fn click_key_visible(app: &mut App)
    ensures
        final(app).key_visible_clicked(old(app)),
{
    proof {
        reveal(App::key_visible_clicked);
    }
    let k = app.keys_selected;
    if k < app.keys.len() {
        let kd = &app.keys[k];
        let shown = KeyDisplay {
            alias: kd.alias.clone(),
            address: kd.address.clone(),
            scheme: kd.scheme.clone(),
            is_active: kd.is_active,
            visible: !kd.visible,
            private_key_hex: kd.private_key_hex.clone(),
        };
        app.keys.set(k, shown);
        let ghost mid = *app;
        app.request_refresh();
        assert(app.refreshed(&mid));
    }
}

pub(crate) fn click_tx_delete(app: &mut App)
    requires
        old(app).tx.commands@.len() > 0 ==> old(app).tx.cmd_selected < old(app).tx.commands@.len(),
    ensures
        final(app).tx_delete_clicked(old(app)),
{
    proof {
        reveal(App::tx_delete_clicked);
    }
    if app.tx.commands.len() > 0 {
        let k = app.tx.cmd_selected;
        let _ = app.tx.commands.remove(k);
        app.tx.dry_run_dirty = true;
        if k >= app.tx.commands.len() && k > 0 {
            app.tx.cmd_selected = k - 1;
        }
    }
}

pub(crate) fn click_tx_clear(app: &mut App)
    ensures
        final(app).tx_clear_clicked(old(app)),
{
    proof {
        reveal(App::tx_clear_clicked);
    }
    if app.tx.commands.len() == 0 {
        app.tx.reset();
    } else {
        app.open_popup(Popup::ConfirmClearTx);
    }
}

pub(crate) fn click_portfolio(app: &mut App)
    requires
        !old(app).coins_summary_mode ==> type_totals_fit(old(app).coins@),
    ensures
        final(app).portfolio_clicked(old(app)),
{
    proof {
        reveal(App::portfolio_clicked);
    }
    if app.coins_summary_mode {
        app.coins_summary_mode = false;
    } else if app.show_multiple_owners() {
        app.coins_summary_mode = true;
        app.compute_portfolio_summary();
    }
}

pub(crate) fn click_merge(app: &mut App)
    ensures
        final(app).merge_clicked(old(app)),
{
    proof {
        reveal(App::merge_clicked);
    }
    app.merge_coins_for_selected();
}

pub(crate) fn click_quick_transfer(app: &mut App)
    ensures
        final(app).quick_transfer_clicked(old(app)),
{
    proof {
        reveal(App::quick_transfer_clicked);
        reveal_strlit("");
    }
    if app.coins.len() > 0 {
        app.quick_transfer_field = 0;
        app.quick_transfer_buffers = [String::new(), String::new()];
        assert(app.quick_transfer_buffers@.len() == 2);
        assert(forall|i: int| 0 <= i < 2 ==> (#[trigger] app.quick_transfer_buffers@[i])@.len() == 0);
        app.open_popup(Popup::QuickTransfer);
        app.start_input("");
        assert(""@ =~= Seq::<char>::empty());
    }
}

pub(crate) fn click_unstake(app: &mut App)
    ensures
        final(app).unstake_clicked(old(app)),
{
    proof {
        reveal(App::unstake_clicked);
    }
    if app.stakes_selected < app.stakes.len() {
        let id = app.stakes[app.stakes_selected].object_id.clone();
        let copy = id.clone();
        app.tx.reset();
        app.tx.commands.push(PtbCommand::Unstake { staked_iota_id: id });
        app.tx.step = TxBuilderStep::Review;
        assert(app.tx.commands@ =~= seq![PtbCommand::Unstake { staked_iota_id: id }]);
        app.navigate(Screen::TxBuilder);
        let mut commands: Vec<PtbCommand> = Vec::new();
        commands.push(PtbCommand::Unstake { staked_iota_id: copy });
        assert(commands@ =~= seq![PtbCommand::Unstake { staked_iota_id: id }]);
        let sender_idx = app.tx.sender;
        app.send_cmd(WalletCmd::DryRun { sender_idx, commands });
        app.tx.dry_running = true;
        app.tx.dry_run_dirty = false;
        assert(app.outbox@.take(old(app).outbox@.len() as int) =~= old(app).outbox@);
    }
}

pub(crate) fn click_pkg_browse(app: &mut App)
    ensures
        final(app).pkg_browse_clicked(old(app)),
{
    proof {
        reveal(App::pkg_browse_clicked);
    }
    match app.pkg_view {
        PackageBrowserView::List => app.browse_selected_package(),
        PackageBrowserView::Modules => app.browse_selected_module(),
        PackageBrowserView::Functions => app.jump_to_move_call(),
    }
}

pub(crate) fn click_pkg_back(app: &mut App)
    ensures
        final(app).pkg_back_clicked(old(app)),
{
    proof {
        reveal(App::pkg_back_clicked);
    }
    match app.pkg_view {
        PackageBrowserView::Functions => {
            app.pkg_view = PackageBrowserView::Modules;
        },
        PackageBrowserView::Modules => {
            app.pkg_view = PackageBrowserView::List;
        },
        PackageBrowserView::List => {},
    }
}

impl App {
    /// What a click on hint `id` did to the app, the copy, export and
    /// faucet hints aside (they leave their work to the caller).
    #[verifier::opaque]
    pub open spec fn hint_done(&self, o: &App, id: Seq<char>) -> bool {
        if id == "open_menu"@ {
            self.popup_opened(&App { action_menu_selected: 0, ..*o }, Popup::ActionsMenu)
        } else if id == "explore"@ {
            self.explore_clicked(o)
        } else if id == "help"@ {
            self.popup_opened(o, Popup::Help)
        } else if id == "refresh"@ {
            self.refreshed(o)
        } else if id == "network"@ {
            self.popup_opened(o, Popup::SwitchNetwork)
        } else if id == "type_search"@ {
            self.type_search_clicked(o)
        } else if id == "filter"@ {
            self.filter_clicked(o)
        } else if id == "addr_add"@ {
            self.addr_add_clicked(o)
        } else if id == "addr_edit"@ {
            self.addr_edit_clicked(o)
        } else if id == "addr_delete"@ {
            if o.selected_book_index() is Some {
                self.popup_opened(o, Popup::ConfirmDeleteAddress)
            } else {
                *self == *o
            }
        } else if id == "iota_name"@ {
            self.popup_with_input(o, Popup::LookupIotaName, Seq::empty())
        } else if id == "key_activate"@ {
            self.key_activate_clicked(o)
        } else if id == "key_visible"@ {
            self.key_visible_clicked(o)
        } else if id == "key_gen"@ {
            self.popup_opened(o, Popup::GenerateKey)
        } else if id == "key_import"@ {
            self.popup_with_input(o, Popup::ImportKey, Seq::empty())
        } else if id == "key_rename"@ {
            if o.keys_selected < o.keys@.len() {
                self.popup_with_input(o, Popup::RenameKey, o.keys@[o.keys_selected as int].alias@)
            } else {
                *self == *o
            }
        } else if id == "key_delete"@ {
            if o.keys@.len() > 0 {
                self.popup_opened(o, Popup::ConfirmDeleteKey)
            } else {
                *self == *o
            }
        } else if id == "tx_add"@ {
            self.popup_opened(o, Popup::AddCommand)
        } else if id == "tx_delete"@ {
            self.tx_delete_clicked(o)
        } else if id == "tx_clear"@ {
            self.tx_clear_clicked(o)
        } else if id == "portfolio"@ {
            self.portfolio_clicked(o)
        } else if id == "merge"@ {
            self.merge_clicked(o)
        } else if id == "split"@ {
            if o.coins@.len() > 0 {
                self.popup_with_input(o, Popup::SplitCoin, "2"@)
            } else {
                *self == *o
            }
        } else if id == "quick_transfer"@ {
            self.quick_transfer_clicked(o)
        } else if id == "unstake"@ {
            self.unstake_clicked(o)
        } else if id == "pkg_browse"@ {
            self.pkg_browse_clicked(o)
        } else if id == "pkg_back"@ {
            self.pkg_back_clicked(o)
        } else if id == "explorer_search"@ {
            &&& self.input_buffer@.len() == 0
            &&& *self == (App {
                input_mode: InputMode::Editing,
                input_buffer: self.input_buffer,
                input_cursor: 0,
                ..*o
            })
        } else {
            *self == *o
        }
    }

    /// What a click on hint `id` did, `r` being what it leaves to the
    /// caller: copying, exporting, or asking the faucet for the active key.
    #[verifier::opaque]
    pub open spec fn hint_clicked(&self, o: &App, id: Seq<char>, r: HintRequest) -> bool {
        if id == "copy"@ {
            r == HintRequest::Copy && *self == *o
        } else if id == "export"@ {
            r == HintRequest::Export && *self == *o
        } else if id == "faucet"@ {
            &&& r == match o.spec_active_index() {
                Some(i) => HintRequest::Faucet(o.keys@[i as int].address),
                None => HintRequest::Done,
            }
            &&& *self == *o
        } else {
            r == HintRequest::Done && self.hint_done(o, id)
        }
    }

    /// What any hint click needs (see `hint_ok`).
    pub open spec fn hints_ok(&self) -> bool {
        &&& self.selected_book_index() matches Some(i) ==> byte_len(
            self.address_book@[i as int].label@,
        ) + 4 <= usize::MAX
        &&& self.keys_selected < self.keys@.len() ==> byte_len(
            self.keys@[self.keys_selected as int].alias@,
        ) + 4 <= usize::MAX
        &&& self.tx.commands@.len() > 0 ==> self.tx.cmd_selected < self.tx.commands@.len()
        &&& !self.coins_summary_mode ==> type_totals_fit(self.coins@)
    }

    /// What a hint click needs: labels and aliases that the input line can
    /// take, a selected command that exists, coin totals that fit.
    pub open spec fn hint_ok(&self, id: Seq<char>) -> bool {
        &&& id == "addr_edit"@ ==> (self.selected_book_index() matches Some(i) ==> byte_len(
            self.address_book@[i as int].label@,
        ) + 4 <= usize::MAX)
        &&& id == "key_rename"@ ==> (self.keys_selected < self.keys@.len() ==> byte_len(
            self.keys@[self.keys_selected as int].alias@,
        ) + 4 <= usize::MAX)
        &&& id == "tx_delete"@ ==> (self.tx.commands@.len() > 0 ==> self.tx.cmd_selected
            < self.tx.commands@.len())
        &&& id == "portfolio"@ ==> (!self.coins_summary_mode ==> type_totals_fit(self.coins@))
    }
}

pub(crate) fn click_popup_with_blank_input(app: &mut App, p: Popup)
    ensures
        final(app).popup_with_input(old(app), p, Seq::empty()),
{
    proof {
        reveal_strlit("");
    }
    app.open_popup(p);
    app.start_input("");
    assert(""@ =~= Seq::<char>::empty());
}

pub(crate) fn click_key_rename(app: &mut App)
    requires
        old(app).keys_selected < old(app).keys@.len() ==> byte_len(
            old(app).keys@[old(app).keys_selected as int].alias@,
        ) + 4 <= usize::MAX,
    ensures
        if old(app).keys_selected < old(app).keys@.len() {
            final(app).popup_with_input(
                old(app),
                Popup::RenameKey,
                old(app).keys@[old(app).keys_selected as int].alias@,
            )
        } else {
            *final(app) == *old(app)
        },
{
    if app.keys_selected < app.keys.len() {
        let current = app.keys[app.keys_selected].alias.clone();
        app.open_popup(Popup::RenameKey);
        app.start_input(current.as_str());
    }
}

pub(crate) fn click_split(app: &mut App)
    ensures
        if old(app).coins@.len() > 0 {
            final(app).popup_with_input(old(app), Popup::SplitCoin, "2"@)
        } else {
            *final(app) == *old(app)
        },
{
    proof {
        reveal_strlit("2");
        crate::text::lemma_byte_len_at_most_4("2"@);
    }
    if app.coins.len() > 0 {
        app.open_popup(Popup::SplitCoin);
        app.start_input("2");
    }
}

pub(crate) fn click_explorer_search(app: &mut App)
    ensures
        final(app).input_buffer@.len() == 0,
        *final(app) == (App {
            input_mode: InputMode::Editing,
            input_buffer: final(app).input_buffer,
            input_cursor: 0,
            ..*old(app)
        }),
{
    proof {
        reveal_strlit("");
    }
    app.start_input("");
}

#[verifier::rlimit(100)]
fn apply_hint(app: &mut App, id: &str)
    requires
        old(app).hint_ok(id@),
    ensures
        final(app).hint_done(old(app), id@),
{
    proof {
        reveal(App::hint_done);
    }
    if str_eq(id, "open_menu") {
        app.action_menu_selected = 0;
        app.open_popup(Popup::ActionsMenu);
    } else if str_eq(id, "explore") {
        click_explore(app);
    } else if str_eq(id, "help") {
        app.open_popup(Popup::Help);
    } else if str_eq(id, "refresh") {
        app.request_refresh();
    } else if str_eq(id, "network") {
        app.open_popup(Popup::SwitchNetwork);
    } else if str_eq(id, "type_search") {
        click_type_search(app);
    } else if str_eq(id, "filter") {
        click_filter(app);
    } else if str_eq(id, "addr_add") {
        click_addr_add(app);
    } else if str_eq(id, "addr_edit") {
        click_addr_edit(app);
    } else if str_eq(id, "addr_delete") {
        click_addr_delete(app);
    } else if str_eq(id, "iota_name") {
        click_popup_with_blank_input(app, Popup::LookupIotaName);
    } else if str_eq(id, "key_activate") {
        click_key_activate(app);
    } else if str_eq(id, "key_visible") {
        click_key_visible(app);
    } else if str_eq(id, "key_gen") {
        app.open_popup(Popup::GenerateKey);
    } else if str_eq(id, "key_import") {
        click_popup_with_blank_input(app, Popup::ImportKey);
    } else if str_eq(id, "key_rename") {
        click_key_rename(app);
    } else if str_eq(id, "key_delete") {
        if app.keys.len() > 0 {
            app.open_popup(Popup::ConfirmDeleteKey);
        }
    } else if str_eq(id, "tx_add") {
        app.open_popup(Popup::AddCommand);
    } else if str_eq(id, "tx_delete") {
        click_tx_delete(app);
    } else if str_eq(id, "tx_clear") {
        click_tx_clear(app);
    } else if str_eq(id, "portfolio") {
        click_portfolio(app);
    } else if str_eq(id, "merge") {
        click_merge(app);
    } else if str_eq(id, "split") {
        click_split(app);
    } else if str_eq(id, "quick_transfer") {
        click_quick_transfer(app);
    } else if str_eq(id, "unstake") {
        click_unstake(app);
    } else if str_eq(id, "pkg_browse") {
        click_pkg_browse(app);
    } else if str_eq(id, "pkg_back") {
        click_pkg_back(app);
    } else if str_eq(id, "explorer_search") {
        click_explorer_search(app);
    }
}

/// Handle a click on the hint whose action is `action_id`. Copying,
/// exporting and the faucet request are handed back to the caller, which
/// owns the clipboard, the files and the address parser.
pub fn handle_hint_click(app: &mut App, action_id: &str) -> (r: HintRequest)
    requires
        old(app).hint_ok(action_id@),
    ensures
        final(app).hint_clicked(old(app), action_id@, r),
{
    proof {
        reveal(App::hint_clicked);
    }
    if str_eq(action_id, "copy") {
        return HintRequest::Copy;
    }
    if str_eq(action_id, "export") {
        return HintRequest::Export;
    }
    if str_eq(action_id, "faucet") {
        return match app.active_key() {
            Some(k) => HintRequest::Faucet(k.address.clone()),
            None => HintRequest::Done,
        };
    }
    apply_hint(app, action_id);
    HintRequest::Done
}

} // verus!
