//! Responses from the wallet backend and how they update the state.

use vstd::prelude::*;
use crate::formatting::{format_balance, spec_format_balance};
use crate::lookup::LookupResult;
use crate::portfolio::{summary_of, type_total, type_totals_fit};
use crate::state::App;
use crate::text::{contains_seq, dec, owned, push_dec, str_contains};
use crate::types::{
    AddressEntry, CoinDisplay, DryRunInfo, KeyDisplay, LookupSection, ModuleFunctionDisplay,
    NetworkOverview, ObjectDisplay, PackageBrowserView, PackageModuleDisplay, Popup, Section,
    StakeDisplay, TransactionDisplay,
};
use crate::wallet::{BalanceInfo, CoinInfo, ObjectInfo, WalletCmd, WalletEvent};

verus! {

/// A selection index kept inside a list of `len` rows.
pub open spec fn clamp_sel(sel: usize, len: nat) -> usize {
    if sel >= len {
        if len == 0 {
            0
        } else {
            (len - 1) as usize
        }
    } else {
        sel
    }
}

/// The IOTA balance after a balance report: added up over accounts when
/// several are shown, else the last IOTA balance reported.
pub open spec fn iota_total_after(total: nat, bs: Seq<BalanceInfo>, multi: bool) -> nat
    decreases bs.len(),
{
    if bs.len() == 0 {
        total
    } else {
        let t = iota_total_after(total, bs.drop_last(), multi);
        let b = bs.last();
        if contains_seq(b.coin_type@, "IOTA"@) {
            if multi {
                t + b.total_balance as nat
            } else {
                b.total_balance as nat
            }
        } else {
            t
        }
    }
}

pub open spec fn coin_row(c: CoinInfo, alias: String, d: CoinDisplay) -> bool {
    &&& d.coin_type == c.coin_type
    &&& d.symbol == c.symbol
    &&& d.balance == c.balance
    &&& d.balance_display@ == spec_format_balance(c.balance as nat, 9)
    &&& d.object_id == c.object_id
    &&& d.owner_alias == alias
}

pub open spec fn object_row(o: ObjectInfo, alias: String, d: ObjectDisplay) -> bool {
    &&& d.object_id == o.object_id
    &&& d.object_type == o.object_type
    &&& d.version@ == version_text(o.version)
    &&& d.digest == o.digest
    &&& d.owner == o.owner
    &&& d.owner_alias == alias
}

/// The rows shown for coins of one account.
pub open spec fn coin_rows(cs: Seq<CoinInfo>, alias: String, rows: Seq<CoinDisplay>) -> bool {
    rows.len() == cs.len() && forall|i: int| 0 <= i < cs.len() ==> coin_row(cs[i], alias, #[trigger] rows[i])
}

/// The rows shown for objects of one account.
pub open spec fn object_rows(os: Seq<ObjectInfo>, alias: String, rows: Seq<ObjectDisplay>) -> bool {
    rows.len() == os.len() && forall|i: int| 0 <= i < os.len() ==> object_row(os[i], alias, #[trigger] rows[i])
}

/// Sections of a fresh lookup result: the first one unfolded.
pub open spec fn first_unfolded(secs: Seq<LookupSection>, before: Seq<LookupSection>) -> bool {
    if before.len() > 0 {
        secs == before.update(0, LookupSection { collapsed: false, ..before[0] })
    } else {
        secs == before
    }
}

/// Sum of the balances reported for the coins of type `t` in a batch.
pub open spec fn info_type_total(cs: Seq<CoinInfo>, t: Seq<char>) -> nat
    decreases cs.len(),
{
    if cs.len() == 0 {
        0
    } else {
        info_type_total(cs.drop_last(), t) + if cs.last().coin_type@ == t {
            cs.last().balance as nat
        } else {
            0
        }
    }
}

/// Adding up balances in several accounts only grows the total.
proof fn lemma_iota_total_mono(total: nat, bs: Seq<BalanceInfo>, i: int)
    requires
        0 <= i <= bs.len(),
    ensures
        iota_total_after(total, bs.take(i), true) <= iota_total_after(total, bs, true),
    decreases bs.len(),
{
    if i < bs.len() {
        assert(bs.take(i) =~= bs.drop_last().take(i));
        lemma_iota_total_mono(total, bs.drop_last(), i);
    } else {
        assert(bs.take(i) =~= bs);
    }
}

proof fn lemma_type_total_append(a: Seq<CoinDisplay>, b: Seq<CoinDisplay>, t: Seq<char>)
    ensures
        type_total(a + b, t) == type_total(a, t) + type_total(b, t),
    decreases b.len(),
{
    if b.len() == 0 {
        assert(a + b =~= a);
    } else {
        assert((a + b).drop_last() =~= a + b.drop_last());
        lemma_type_total_append(a, b.drop_last(), t);
    }
}

proof fn lemma_rows_total(cs: Seq<CoinInfo>, alias: String, rows: Seq<CoinDisplay>, t: Seq<char>)
    requires
        coin_rows(cs, alias, rows),
    ensures
        type_total(rows, t) == info_type_total(cs, t),
    decreases cs.len(),
{
    if cs.len() > 0 {
        assert(coin_row(cs.last(), alias, rows.last()));
        assert forall|i: int| 0 <= i < cs.drop_last().len() implies coin_row(
            cs.drop_last()[i],
            alias,
            #[trigger] rows.drop_last()[i],
        ) by {
            assert(coin_row(cs[i], alias, rows[i]));
        }
        lemma_rows_total(cs.drop_last(), alias, rows.drop_last(), t);
    }
}

/// The rows shown for a batch of coins of one account.
pub fn coin_rows_of(coins: &Vec<CoinInfo>, alias: &String) -> (rows: Vec<CoinDisplay>)
    ensures
        coin_rows(coins@, *alias, rows@),
{
    let mut rows: Vec<CoinDisplay> = Vec::new();
    for i in 0..coins.len()
        invariant
            coin_rows(coins@.take(i as int), *alias, rows@),
    {
        let c = &coins[i];
        rows.push(
            CoinDisplay {
                coin_type: c.coin_type.clone(),
                symbol: c.symbol.clone(),
                balance: c.balance,
                balance_display: format_balance(c.balance, 9),
                object_id: c.object_id.clone(),
                owner_alias: alias.clone(),
            },
        );
        assert forall|j: int| 0 <= j < i + 1 implies coin_row(
            coins@.take(i + 1)[j],
            *alias,
            #[trigger] rows@[j],
        ) by {
            if j < i {
                assert(coins@.take(i + 1)[j] == coins@.take(i as int)[j]);
            }
        }
    }
    assert(coins@.take(coins@.len() as int) =~= coins@);
    rows
}

/// The version column: `v` and the number, or `?` when unknown.
pub open spec fn version_text(v: Option<u64>) -> Seq<char> {
    match v {
        Some(n) => "v"@ + dec(n as nat),
        None => "?"@,
    }
}

/// The rows shown for a batch of objects of one account.
pub fn object_rows_of(objects: &Vec<ObjectInfo>, alias: &String) -> (rows: Vec<ObjectDisplay>)
    ensures
        object_rows(objects@, *alias, rows@),
{
    let mut rows: Vec<ObjectDisplay> = Vec::new();
    for i in 0..objects.len()
        invariant
            object_rows(objects@.take(i as int), *alias, rows@),
    {
        let o = &objects[i];
        let version = match o.version {
            Some(v) => {
                let mut t = owned("v");
                push_dec(&mut t, v as u128);
                t
            },
            None => owned("?"),
        };
        rows.push(
            ObjectDisplay {
                object_id: o.object_id.clone(),
                object_type: o.object_type.clone(),
                version,
                digest: o.digest.clone(),
                owner: o.owner.clone(),
                owner_alias: alias.clone(),
            },
        );
        assert forall|j: int| 0 <= j < i + 1 implies object_row(
            objects@.take(i + 1)[j],
            *alias,
            #[trigger] rows@[j],
        ) by {
            if j < i {
                assert(objects@.take(i + 1)[j] == objects@.take(i as int)[j]);
            }
        }
    }
    assert(objects@.take(objects@.len() as int) =~= objects@);
    rows
}

impl App {
    /// The coin list after a batch arrives: appended to the list when
    /// several accounts are shown, else in its place; the selection kept in
    /// range and the portfolio summary recomputed when it is shown.
    #[verifier::opaque]
    pub open spec fn after_coins(&self, o: &App, cs: Seq<CoinInfo>, alias: String) -> bool {
        let keep: int = if o.spec_visible_key_count() > 1 {
            o.coins@.len() as int
        } else {
            0
        };
        &&& self.coins@.len() == keep + cs.len()
        &&& self.coins@.take(keep) == o.coins@.take(keep)
        &&& coin_rows(cs, alias, self.coins@.skip(keep))
        &&& self.coins_selected == clamp_sel(o.coins_selected, self.coins@.len())
        &&& if o.coins_summary_mode {
            &&& summary_of(self.portfolio_summary@, self.coins@)
            &&& self.portfolio_selected == clamp_sel(
                o.portfolio_selected,
                self.portfolio_summary@.len(),
            )
            &&& *self == (App {
                coins: self.coins,
                coins_selected: self.coins_selected,
                portfolio_summary: self.portfolio_summary,
                portfolio_selected: self.portfolio_selected,
                ..*o
            })
        } else {
            *self == (App { coins: self.coins, coins_selected: self.coins_selected, ..*o })
        }
    }

    /// The object list after a batch arrives (as for coins).
    #[verifier::opaque]
    pub open spec fn after_objects(&self, o: &App, os: Seq<ObjectInfo>, alias: String) -> bool {
        let keep: int = if o.spec_visible_key_count() > 1 {
            o.objects@.len() as int
        } else {
            0
        };
        &&& self.objects@.len() == keep + os.len()
        &&& self.objects@.take(keep) == o.objects@.take(keep)
        &&& object_rows(os, alias, self.objects@.skip(keep))
        &&& self.objects_selected == clamp_sel(o.objects_selected, self.objects@.len())
        &&& *self == (App { objects: self.objects, objects_selected: self.objects_selected, ..*o })
    }

    /// After a key was generated or imported: it is appended, active when it
    /// is the first key; the first key also closes the welcome popup and
    /// starts a refresh.
    #[verifier::opaque]
    pub open spec fn after_new_key(
        &self,
        o: &App,
        alias: String,
        address: String,
        scheme: String,
        private_key_hex: String,
    ) -> bool {
        let first = o.keys@.len() == 0;
        let k = KeyDisplay {
            alias,
            address,
            scheme,
            is_active: first,
            visible: true,
            private_key_hex,
        };
        &&& self.keys@ == o.keys@.push(k)
        &&& if first {
            self.refreshed(
                &App {
                    keys: self.keys,
                    popup: if o.popup == Some(Popup::Welcome) {
                        None
                    } else {
                        o.popup
                    },
                    ..*o
                },
            )
        } else {
            *self == (App { keys: self.keys, ..*o })
        }
    }

    /// After a dry run: its result is kept, and its gas estimate becomes the
    /// budget unless the user edited the budget.
    #[verifier::opaque]
    pub open spec fn after_dry_run(&self, o: &App, info: DryRunInfo) -> bool {
        &&& match info.estimated_gas {
            Some(g) => if o.tx.gas_edited {
                self.tx.gas_budget == o.tx.gas_budget
            } else {
                self.tx.gas_budget@ == dec(g as nat)
            },
            None => self.tx.gas_budget == o.tx.gas_budget,
        }
        &&& self.tx == (crate::tx_builder::TxBuilderState {
            dry_run: Some(info),
            dry_running: false,
            gas_budget: self.tx.gas_budget,
            ..o.tx
        })
        &&& *self == (App { tx: self.tx, ..*o })
    }

    /// After a transaction went through: the builder is cleared and closed,
    /// the transactions section opened and the data refreshed.
    #[verifier::opaque]
    pub open spec fn after_submitted(&self, o: &App) -> bool {
        &&& self.tx.is_reset()
        &&& self.tx.sender == o.tx.sender
        &&& self.refreshed(
            &App {
                tx: self.tx,
                tx_builder_open: false,
                section_open: Some(Section::Transactions),
                ..*o
            },
        )
    }

    /// After an IOTA name lookup: a found address is added to the address
    /// book (labelled with the name when no label was given, with the note
    /// `IOTA-Name` when none was given), which is marked for saving.
    #[verifier::opaque]
    pub open spec fn after_name_resolved(
        &self,
        o: &App,
        name: String,
        label: String,
        notes: String,
        address: Option<String>,
    ) -> bool {
        match address {
            None => *self == *o,
            Some(addr) => {
                let e = self.address_book@.last();
                &&& self.address_book@.len() == o.address_book@.len() + 1
                &&& self.address_book@.drop_last() == o.address_book@
                &&& e.label == if label@.len() == 0 {
                    name
                } else {
                    label
                }
                &&& e.address == addr
                &&& if notes@.len() == 0 {
                    e.notes@ == "IOTA-Name"@
                } else {
                    e.notes == notes
                }
                &&& *self == (App {
                    address_book: self.address_book,
                    address_book_dirty: true,
                    ..*o
                })
            },
        }
    }

    /// The explorer shows a fresh lookup result, cursor at the top and the
    /// first section unfolded.
    pub open spec fn shows_result(&self, result: LookupResult) -> bool {
        &&& self.explorer.lookup_result matches Some(r)
        &&& r.spec_kind() == result.spec_kind()
        &&& first_unfolded(r.spec_sections(), result.spec_sections())
        &&& result.spec_kind() == 3 ==> r == result
        &&& self.explorer.lookup_selected == 0
        &&& self.explorer.lookup_offset == 0
        &&& self.explorer.lookup_section == 0
        &&& self.explorer.lookup_depth == 0
        &&& self.explorer.lookup_field_idx == 0
    }

    #[verifier::opaque]
    pub open spec fn after_lookup_result(&self, o: &App, result: LookupResult) -> bool {
        &&& self.shows_result(result)
        &&& self.explorer.lookup_address is None
        &&& self.explorer == (crate::explorer::ExplorerState {
            lookup_result: self.explorer.lookup_result,
            lookup_selected: 0,
            lookup_offset: 0,
            lookup_section: 0,
            lookup_depth: 0,
            lookup_field_idx: 0,
            lookup_address: None,
            ..o.explorer
        })
        &&& *self == (App { explorer: self.explorer, ..*o })
    }

    #[verifier::opaque]
    pub open spec fn after_address_page(
        &self,
        o: &App,
        result: LookupResult,
        obj_cursor: Option<String>,
        obj_has_next: bool,
        tx_cursor: Option<String>,
        tx_has_next: bool,
    ) -> bool {
        &&& self.shows_result(result)
        &&& self.explorer == (crate::explorer::ExplorerState {
            lookup_result: self.explorer.lookup_result,
            lookup_selected: 0,
            lookup_offset: 0,
            lookup_section: 0,
            lookup_depth: 0,
            lookup_field_idx: 0,
            lookup_obj_cursor: obj_cursor,
            lookup_obj_has_next: obj_has_next,
            lookup_tx_cursor: tx_cursor,
            lookup_tx_has_next: tx_has_next,
            ..o.explorer
        })
        &&& *self == (App { explorer: self.explorer, ..*o })
    }

    /// The commands queued on connecting, after the refresh: fresh network
    /// figures, the explorer lookup again when one is shown, and the type
    /// search again when one is active.
    pub open spec fn reconnect_cmds(e: crate::explorer::ExplorerState) -> Seq<WalletCmd> {
        seq![WalletCmd::RefreshNetworkOverview] + match e.lookup_query {
            Some(q) => seq![WalletCmd::LookupAddress(q)],
            None => Seq::empty(),
        } + if e.search_mode && e.search_type@.len() > 0 {
            seq![WalletCmd::SearchObjectsByType { type_filter: e.search_type, cursor: None }]
        } else {
            Seq::empty()
        }
    }

    /// The state `mid` reached by the refresh on connecting, and what
    /// follows it.
    #[verifier::opaque]
    pub open spec fn connected_via(&self, mid: App, o: &App, name: String) -> bool {
        let e = o.explorer;
        &&& mid.refreshed(&App { connected: true, network_name: name, ..*o })
        &&& self.outbox@ == mid.outbox@ + Self::reconnect_cmds(e)
        &&& if e.search_mode && e.search_type@.len() > 0 {
            &&& self.explorer.search_cursors@.len() == 0
            &&& self.explorer == (crate::explorer::ExplorerState {
                overview: None,
                search_cursor: None,
                search_cursors: self.explorer.search_cursors,
                ..e
            })
        } else {
            self.explorer == (crate::explorer::ExplorerState { overview: None, ..e })
        }
        &&& *self == (App { explorer: self.explorer, outbox: self.outbox, ..mid })
    }

    /// After connecting to a network (see `connected_via`).
    #[verifier::opaque]
    pub open spec fn after_connected(&self, o: &App, name: String) -> bool {
        exists|mid: App| #[trigger] self.connected_via(mid, o, name)
    }

    /// After a balance report (see `iota_total_after`).
    #[verifier::opaque]
    pub open spec fn after_balances(&self, o: &App, bs: Seq<BalanceInfo>) -> bool {
        &&& self.total_balance_iota as nat == iota_total_after(
            o.total_balance_iota as nat,
            bs,
            o.spec_visible_key_count() > 1,
        )
        &&& *self == (App { total_balance_iota: self.total_balance_iota, ..*o })
    }

    /// The transaction history replaced, the selection kept in range.
    #[verifier::opaque]
    pub open spec fn after_transactions(&self, o: &App, txs: Seq<TransactionDisplay>) -> bool {
        &&& self.transactions@ == txs
        &&& *self == (App {
            transactions: self.transactions,
            transactions_selected: clamp_sel(o.transactions_selected, txs.len()),
            ..*o
        })
    }

    /// The stakes replaced, the selection kept in range.
    #[verifier::opaque]
    pub open spec fn after_stakes(&self, o: &App, stakes: Seq<StakeDisplay>) -> bool {
        &&& self.stakes@ == stakes
        &&& *self == (App {
            stakes: self.stakes,
            stakes_selected: clamp_sel(o.stakes_selected, stakes.len()),
            ..*o
        })
    }

    /// The explorer shows the new network figures.
    #[verifier::opaque]
    pub open spec fn after_overview(&self, o: &App, ov: NetworkOverview) -> bool {
        *self == (App {
            explorer: crate::explorer::ExplorerState { overview: Some(ov), ..o.explorer },
            ..*o
        })
    }

    /// A page of type-search results, shown from the top.
    #[verifier::opaque]
    pub open spec fn after_search_results(
        &self,
        o: &App,
        objects: Vec<ObjectDisplay>,
        has_next: bool,
        end_cursor: Option<String>,
    ) -> bool {
        *self == (App {
            explorer: crate::explorer::ExplorerState {
                search_results: objects,
                search_selected: 0,
                search_offset: 0,
                search_has_next: has_next,
                search_cursor: end_cursor,
                ..o.explorer
            },
            ..*o
        })
    }

    /// The package browser lists the modules of a package.
    #[verifier::opaque]
    pub open spec fn after_modules(
        &self,
        o: &App,
        package_addr: String,
        modules: Vec<PackageModuleDisplay>,
    ) -> bool {
        *self == (App {
            pkg_selected_id: package_addr,
            pkg_modules: modules,
            pkg_modules_selected: 0,
            pkg_modules_offset: 0,
            pkg_view: PackageBrowserView::Modules,
            ..*o
        })
    }

    /// The package browser lists the functions of a module.
    #[verifier::opaque]
    pub open spec fn after_functions(
        &self,
        o: &App,
        module_name: String,
        functions: Vec<ModuleFunctionDisplay>,
    ) -> bool {
        *self == (App {
            pkg_selected_module: module_name,
            pkg_functions: functions,
            pkg_functions_selected: 0,
            pkg_functions_offset: 0,
            pkg_view: PackageBrowserView::Functions,
            ..*o
        })
    }

    /// What a backend event may ask of the arithmetic: sums stay within
    /// `u128` (the balance counter, and the portfolio totals when shown).
    pub open spec fn event_fits(&self, event: &WalletEvent) -> bool {
        match event {
            WalletEvent::Balances(bs) => self.spec_visible_key_count() > 1 ==> iota_total_after(
                self.total_balance_iota as nat,
                bs@,
                true,
            ) <= u128::MAX,
            WalletEvent::Coins { coins, .. } => self.coins_summary_mode ==> forall|t: Seq<char>|
                (if self.spec_visible_key_count() > 1 {
                    type_total(self.coins@, t)
                } else {
                    0
                }) + #[trigger] info_type_total(coins@, t) <= u128::MAX,
            _ => true,
        }
    }

    /// Handle a response from the wallet backend.
    pub fn handle_wallet_event(&mut self, event: WalletEvent)
        requires
            old(self).event_fits(&event),
        ensures
            ({
                let o = App { loading: false, ..*old(self) };
                match event {
                    WalletEvent::Connected(name) => final(self).after_connected(&o, name),
                    WalletEvent::Balances(bs) => final(self).after_balances(&o, bs@),
                    WalletEvent::Coins { coins, owner_alias } => final(self).after_coins(
                        &o,
                        coins@,
                        owner_alias,
                    ),
                    WalletEvent::Objects { objects, owner_alias } => final(self).after_objects(
                        &o,
                        objects@,
                        owner_alias,
                    ),
                    WalletEvent::Transactions(txs) => final(self).after_transactions(&o, txs@),
                    WalletEvent::KeyGenerated { alias, address, scheme, private_key_hex } => final(self).after_new_key(&o, alias, address, scheme, private_key_hex),
                    WalletEvent::KeyImported { alias, address, scheme, private_key_hex } => final(self).after_new_key(&o, alias, address, scheme, private_key_hex),
                    WalletEvent::DryRunResult(info) => final(self).after_dry_run(&o, info),
                    WalletEvent::TxSubmitted { .. } => final(self).after_submitted(&o),
                    WalletEvent::FaucetRequested(_) => final(self).refreshed(&o),
                    WalletEvent::IotaNameResolved { name, label, notes, address } => final(self).after_name_resolved(&o, name, label, notes, address),
                    WalletEvent::NetworkOverview {
                        chain_id,
                        epoch,
                        gas_price,
                        latest_checkpoint,
                        total_transactions,
                    } => final(self).after_overview(
                        &o,
                        NetworkOverview {
                            chain_id,
                            epoch,
                            gas_price,
                            latest_checkpoint,
                            total_txs: total_transactions,
                        },
                    ),
                    WalletEvent::ExplorerLookupResult(result) => final(self).after_lookup_result(
                        &o,
                        result,
                    ),
                    WalletEvent::AddressLookupPage {
                        result,
                        obj_cursor,
                        obj_has_next,
                        tx_cursor,
                        tx_has_next,
                    } => final(self).after_address_page(
                        &o,
                        result,
                        obj_cursor,
                        obj_has_next,
                        tx_cursor,
                        tx_has_next,
                    ),
                    WalletEvent::ObjectSearchResults { objects, has_next_page, end_cursor } => final(self).after_search_results(&o, objects, has_next_page, end_cursor),
                    WalletEvent::Stakes(stakes) => final(self).after_stakes(&o, stakes@),
                    WalletEvent::PackageModules { package_addr, modules } => final(self).after_modules(&o, package_addr, modules),
                    WalletEvent::ModuleFunctions { module_name, functions } => final(self).after_functions(&o, module_name, functions),
                    WalletEvent::Checkpoints { .. } => *final(self) == o,
                    WalletEvent::Validators(_) => *final(self) == o,
                    WalletEvent::Error(_) => *final(self) == o,
                }
            }),
    {
        self.loading = false;
        match event {
            WalletEvent::Connected(network) => self.on_connected(network),
            WalletEvent::Balances(balances) => self.on_balances(balances),
            WalletEvent::Coins { coins, owner_alias } => self.on_coins(coins, owner_alias),
            WalletEvent::Objects { objects, owner_alias } => self.on_objects(objects, owner_alias),
            WalletEvent::Transactions(txs) => self.on_transactions(txs),
            WalletEvent::KeyGenerated { alias, address, scheme, private_key_hex } => {
                self.on_new_key(alias, address, scheme, private_key_hex)
            },
            WalletEvent::KeyImported { alias, address, scheme, private_key_hex } => {
                self.on_new_key(alias, address, scheme, private_key_hex)
            },
            WalletEvent::DryRunResult(info) => self.on_dry_run(info),
            WalletEvent::TxSubmitted { .. } => self.on_submitted(),
            WalletEvent::FaucetRequested(_msg) => self.request_refresh(),
            WalletEvent::IotaNameResolved { name, label, notes, address } => {
                self.on_name_resolved(name, label, notes, address)
            },
            WalletEvent::NetworkOverview {
                chain_id,
                epoch,
                gas_price,
                latest_checkpoint,
                total_transactions,
            } => self.on_overview(
                NetworkOverview {
                    chain_id,
                    epoch,
                    gas_price,
                    latest_checkpoint,
                    total_txs: total_transactions,
                },
            ),
            WalletEvent::ExplorerLookupResult(result) => self.on_lookup_result(result),
            WalletEvent::AddressLookupPage {
                result,
                obj_cursor,
                obj_has_next,
                tx_cursor,
                tx_has_next,
            } => self.on_address_page(result, obj_cursor, obj_has_next, tx_cursor, tx_has_next),
            WalletEvent::ObjectSearchResults { objects, has_next_page, end_cursor } => {
                self.on_search_results(objects, has_next_page, end_cursor)
            },
            WalletEvent::Stakes(stakes) => self.on_stakes(stakes),
            WalletEvent::PackageModules { package_addr, modules } => {
                self.on_modules(package_addr, modules)
            },
            WalletEvent::ModuleFunctions { module_name, functions } => {
                self.on_functions(module_name, functions)
            },
            WalletEvent::Checkpoints { .. } => {},
            WalletEvent::Validators(_) => {},
            WalletEvent::Error(_e) => {},
        }
    }
}

impl App {
    fn on_connected(&mut self, network: String)
        ensures
            final(self).after_connected(old(self), network),
    {
        self.connected = true;
        self.network_name = network;
        self.request_refresh();
        let ghost mid = *self;
        self.requery_explorer();
        proof {
            reveal(App::connected_via);
            reveal(App::refreshed);
            reveal(App::after_connected);
            assert(self.connected_via(mid, old(self), network));
        }
    }

    /// Ask again for what the explorer shows: network figures, the current
    /// lookup and the current type search (from its first page).
    #[verifier::rlimit(100)]
    fn requery_explorer(&mut self)
        ensures
            final(self).outbox@ == old(self).outbox@ + Self::reconnect_cmds(old(self).explorer),
            final(self).explorer == if old(self).explorer.search_mode
                && old(self).explorer.search_type@.len() > 0 {
                crate::explorer::ExplorerState {
                    overview: None,
                    search_cursor: None,
                    search_cursors: final(self).explorer.search_cursors,
                    ..old(self).explorer
                }
            } else {
                crate::explorer::ExplorerState { overview: None, ..old(self).explorer }
            },
            old(self).explorer.search_mode && old(self).explorer.search_type@.len() > 0
                ==> final(self).explorer.search_cursors@.len() == 0,
            *final(self) == (App {
                explorer: final(self).explorer,
                outbox: final(self).outbox,
                ..*old(self)
            }),
    {
        self.explorer.overview = None;
        self.outbox.push(WalletCmd::RefreshNetworkOverview);
        match &self.explorer.lookup_query {
            Some(q) => {
                let query = q.clone();
                self.outbox.push(WalletCmd::LookupAddress(query));
            },
            None => {},
        }
        if self.explorer.search_mode {
            let type_filter = self.explorer.search_type.clone();
            if !type_filter.as_str().is_empty() {
                self.explorer.search_cursors.clear();
                self.explorer.search_cursor = None;
                self.outbox.push(WalletCmd::SearchObjectsByType { type_filter, cursor: None });
            }
        }
        assert(self.outbox@ =~= old(self).outbox@ + Self::reconnect_cmds(old(self).explorer));
    }

    fn on_balances(&mut self, balances: Vec<BalanceInfo>)
        requires
            old(self).spec_visible_key_count() > 1 ==> iota_total_after(
                old(self).total_balance_iota as nat,
                balances@,
                true,
            ) <= u128::MAX,
        ensures
            final(self).after_balances(old(self), balances@),
    {
        proof {
            reveal(App::after_balances);
        }
        let multi = self.visible_key_count() > 1;
        let ghost pre = *self;
        let ghost t0 = self.total_balance_iota as nat;
        assert(balances@.take(0) =~= Seq::<BalanceInfo>::empty());
        for i in 0..balances.len()
            invariant
                multi == (pre.spec_visible_key_count() > 1),
                t0 == pre.total_balance_iota as nat,
                multi ==> iota_total_after(t0, balances@, true) <= u128::MAX,
                self.total_balance_iota as nat == iota_total_after(
                    t0,
                    balances@.take(i as int),
                    multi,
                ),
                *self == (App { total_balance_iota: self.total_balance_iota, ..pre }),
        {
            proof {
                assert(balances@.take(i + 1).drop_last() =~= balances@.take(i as int));
                if multi {
                    lemma_iota_total_mono(t0, balances@, i + 1);
                }
            }
            let b = &balances[i];
            if str_contains(b.coin_type.as_str(), "IOTA") {
                if multi {
                    self.total_balance_iota = self.total_balance_iota + b.total_balance;
                } else {
                    self.total_balance_iota = b.total_balance;
                }
            }
        }
        assert(balances@.take(balances@.len() as int) =~= balances@);
    }

    fn on_coins(&mut self, coins: Vec<CoinInfo>, owner_alias: String)
        requires
            old(self).coins_summary_mode ==> forall|t: Seq<char>|
                (if old(self).spec_visible_key_count() > 1 {
                    type_total(old(self).coins@, t)
                } else {
                    0
                }) + #[trigger] info_type_total(coins@, t) <= u128::MAX,
        ensures
            final(self).after_coins(old(self), coins@, owner_alias),
    {
        let mut rows = coin_rows_of(&coins, &owner_alias);
        let ghost new_rows = rows@;
        if self.visible_key_count() > 1 {
            self.coins.append(&mut rows);
        } else {
            self.coins = rows;
        }
        if self.coins_selected >= self.coins.len() {
            self.coins_selected = if self.coins.len() == 0 {
                0
            } else {
                self.coins.len() - 1
            };
        }
        let ghost keep: int = if old(self).spec_visible_key_count() > 1 {
            old(self).coins@.len() as int
        } else {
            0
        };
        proof {
            assert(self.coins@.take(keep) =~= old(self).coins@.take(keep));
            assert(self.coins@.skip(keep) =~= new_rows);
        }
        if self.coins_summary_mode {
            proof {
                assert(self.coins@ =~= old(self).coins@.take(keep) + new_rows);
                assert(old(self).coins@.take(keep) =~= if keep == 0 {
                    Seq::<CoinDisplay>::empty()
                } else {
                    old(self).coins@
                });
                assert forall|t: Seq<char>| #[trigger] type_total(self.coins@, t) <= u128::MAX by {
                    lemma_type_total_append(old(self).coins@.take(keep), new_rows, t);
                    lemma_rows_total(coins@, owner_alias, new_rows, t);
                    assert(info_type_total(coins@, t) >= 0);
                }
                assert(type_totals_fit(self.coins@));
            }
            self.compute_portfolio_summary();
        }
        proof {
            reveal(App::after_coins);
        }
    }
}

impl App {
    fn on_objects(&mut self, objects: Vec<ObjectInfo>, owner_alias: String)
        ensures
            final(self).after_objects(old(self), objects@, owner_alias),
    {
        let mut rows = object_rows_of(&objects, &owner_alias);
        let ghost new_rows = rows@;
        if self.visible_key_count() > 1 {
            self.objects.append(&mut rows);
        } else {
            self.objects = rows;
        }
        if self.objects_selected >= self.objects.len() {
            self.objects_selected = if self.objects.len() == 0 {
                0
            } else {
                self.objects.len() - 1
            };
        }
        let ghost keep: int = if old(self).spec_visible_key_count() > 1 {
            old(self).objects@.len() as int
        } else {
            0
        };
        proof {
            assert(self.objects@.take(keep) =~= old(self).objects@.take(keep));
            assert(self.objects@.skip(keep) =~= new_rows);
            reveal(App::after_objects);
        }
    }

    fn on_new_key(&mut self, alias: String, address: String, scheme: String, private_key_hex: String)
        ensures
            final(self).after_new_key(old(self), alias, address, scheme, private_key_hex),
    {
        proof {
            reveal(App::after_new_key);
        }
        let is_first = self.keys.len() == 0;
        self.keys.push(
            KeyDisplay { alias, address, scheme, is_active: is_first, visible: true, private_key_hex },
        );
        if is_first {
            if self.popup == Some(Popup::Welcome) {
                self.popup = None;
            }
            let ghost mid = *self;
            assert(mid == (App {
                keys: mid.keys,
                popup: if old(self).popup == Some(Popup::Welcome) {
                    None
                } else {
                    old(self).popup
                },
                ..*old(self)
            }));
            self.request_refresh();
            assert(self.keys == mid.keys) by {
                reveal(App::refreshed);
            }
        }
    }

    fn on_dry_run(&mut self, info: DryRunInfo)
        ensures
            final(self).after_dry_run(old(self), info),
    {
        proof {
            reveal(App::after_dry_run);
        }
        let estimate = if self.tx.gas_edited {
            None
        } else {
            info.estimated_gas
        };
        match estimate {
            Some(gas) => {
                let mut t = String::new();
                push_dec(&mut t, gas as u128);
                assert(t@ =~= dec(gas as nat));
                self.tx.gas_budget = t;
            },
            None => {},
        }
        self.tx.dry_running = false;
        self.tx.dry_run = Some(info);
    }

    fn on_submitted(&mut self)
        ensures
            final(self).after_submitted(old(self)),
    {
        proof {
            reveal(App::after_submitted);
        }
        self.tx.reset();
        self.tx_builder_open = false;
        self.section_open = Some(Section::Transactions);
        let ghost mid = *self;
        self.request_refresh();
        assert(self.tx == mid.tx) by {
            reveal(App::refreshed);
        }
    }

    fn on_name_resolved(&mut self, name: String, label: String, notes: String, address: Option<String>)
        ensures
            final(self).after_name_resolved(old(self), name, label, notes, address),
    {
        proof {
            reveal(App::after_name_resolved);
        }
        match address {
            Some(addr) => {
                let display_label = if label.as_str().is_empty() {
                    name
                } else {
                    label
                };
                let display_notes = if notes.as_str().is_empty() {
                    owned("IOTA-Name")
                } else {
                    notes
                };
                self.address_book.push(
                    AddressEntry { label: display_label, address: addr, notes: display_notes },
                );
                self.address_book_dirty = true;
                assert(self.address_book@.drop_last() =~= old(self).address_book@);
            },
            None => {},
        }
    }

    /// Reset the explorer cursor and show `result`, first section unfolded.
    fn show_result(&mut self, result: LookupResult)
        ensures
            final(self).shows_result(result),
            final(self).explorer == (crate::explorer::ExplorerState {
                lookup_result: final(self).explorer.lookup_result,
                lookup_selected: 0,
                lookup_offset: 0,
                lookup_section: 0,
                lookup_depth: 0,
                lookup_field_idx: 0,
                ..old(self).explorer
            }),
            *final(self) == (App { explorer: final(self).explorer, ..*old(self) }),
    {
        let mut result = result;
        self.explorer.lookup_selected = 0;
        self.explorer.lookup_offset = 0;
        self.explorer.lookup_section = 0;
        self.explorer.lookup_depth = 0;
        self.explorer.lookup_field_idx = 0;
        result.set_collapsed(0, false);
        self.explorer.lookup_result = Some(result);
    }

    fn on_lookup_result(&mut self, result: LookupResult)
        ensures
            final(self).after_lookup_result(old(self), result),
    {
        proof {
            reveal(App::after_lookup_result);
        }
        self.explorer.lookup_address = None;
        self.show_result(result);
    }

    fn on_address_page(
        &mut self,
        result: LookupResult,
        obj_cursor: Option<String>,
        obj_has_next: bool,
        tx_cursor: Option<String>,
        tx_has_next: bool,
    )
        ensures
            final(self).after_address_page(
                old(self),
                result,
                obj_cursor,
                obj_has_next,
                tx_cursor,
                tx_has_next,
            ),
    {
        proof {
            reveal(App::after_address_page);
        }
        self.explorer.lookup_obj_cursor = obj_cursor;
        self.explorer.lookup_obj_has_next = obj_has_next;
        self.explorer.lookup_tx_cursor = tx_cursor;
        self.explorer.lookup_tx_has_next = tx_has_next;
        self.show_result(result);
    }
}

impl App {
    fn on_transactions(&mut self, txs: Vec<TransactionDisplay>)
        ensures
            final(self).after_transactions(old(self), txs@),
    {
        proof {
            reveal(App::after_transactions);
        }
        self.transactions = txs;
        if self.transactions_selected >= self.transactions.len() {
            self.transactions_selected = if self.transactions.len() == 0 {
                0
            } else {
                self.transactions.len() - 1
            };
        }
    }

    fn on_stakes(&mut self, stakes: Vec<StakeDisplay>)
        ensures
            final(self).after_stakes(old(self), stakes@),
    {
        proof {
            reveal(App::after_stakes);
        }
        self.stakes = stakes;
        if self.stakes_selected >= self.stakes.len() {
            self.stakes_selected = if self.stakes.len() == 0 {
                0
            } else {
                self.stakes.len() - 1
            };
        }
    }

    fn on_overview(&mut self, ov: NetworkOverview)
        ensures
            final(self).after_overview(old(self), ov),
    {
        proof {
            reveal(App::after_overview);
        }
        self.explorer.overview = Some(ov);
    }

    fn on_search_results(
        &mut self,
        objects: Vec<ObjectDisplay>,
        has_next_page: bool,
        end_cursor: Option<String>,
    )
        ensures
            final(self).after_search_results(old(self), objects, has_next_page, end_cursor),
    {
        proof {
            reveal(App::after_search_results);
        }
        self.explorer.search_results = objects;
        self.explorer.search_selected = 0;
        self.explorer.search_offset = 0;
        self.explorer.search_has_next = has_next_page;
        self.explorer.search_cursor = end_cursor;
    }

    fn on_modules(&mut self, package_addr: String, modules: Vec<PackageModuleDisplay>)
        ensures
            final(self).after_modules(old(self), package_addr, modules),
    {
        proof {
            reveal(App::after_modules);
        }
        self.pkg_selected_id = package_addr;
        self.pkg_modules = modules;
        self.pkg_modules_selected = 0;
        self.pkg_modules_offset = 0;
        self.pkg_view = PackageBrowserView::Modules;
    }

    fn on_functions(&mut self, module_name: String, functions: Vec<ModuleFunctionDisplay>)
        ensures
            final(self).after_functions(old(self), module_name, functions),
    {
        proof {
            reveal(App::after_functions);
        }
        self.pkg_selected_module = module_name;
        self.pkg_functions = functions;
        self.pkg_functions_selected = 0;
        self.pkg_functions_offset = 0;
        self.pkg_view = PackageBrowserView::Functions;
    }
}

} // verus!
