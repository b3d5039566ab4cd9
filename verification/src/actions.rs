//! User actions on the application state: exploring items, refreshing
//! data, browsing packages, and building one-step transactions (merge,
//! split, transfer) that go straight to review.

use vstd::prelude::*;
use crate::formatting::{
    format_iota, parse_iota_amount, parse_u64, spec_format_iota, spec_parse_iota_amount,
    spec_parse_u64,
};
use crate::state::App;
use crate::text::{dec, owned, push_dec, push_str};
use crate::tx_builder::transfer_total;
use crate::types::{
    InputMode, KeyDisplay, Popup, PtbCommand, Screen, TxBuilderStep,
};
use crate::wallet::WalletCmd;

verus! {

/// The commands that refresh one account's coins, objects and balances.
pub open spec fn key_refresh_cmds(k: KeyDisplay) -> Seq<WalletCmd> {
    seq![
        WalletCmd::RefreshCoins { addr: k.address, alias: k.alias },
        WalletCmd::RefreshObjects { addr: k.address, alias: k.alias },
        WalletCmd::RefreshBalances(k.address),
    ]
}

pub open spec fn all_refresh_cmds(ks: Seq<KeyDisplay>) -> Seq<WalletCmd>
    decreases ks.len(),
{
    if ks.len() == 0 {
        Seq::empty()
    } else {
        all_refresh_cmds(ks.drop_last()) + key_refresh_cmds(ks.last())
    }
}

/// The commands that refresh the history and stakes of an account.
pub open spec fn history_cmds(k: KeyDisplay) -> Seq<WalletCmd> {
    seq![WalletCmd::RefreshTransactions(k.address), WalletCmd::RefreshStakes(k.address)]
}

pub open spec fn visible_keys(ks: Seq<KeyDisplay>) -> Seq<KeyDisplay> {
    ks.filter(|k: KeyDisplay| k.visible)
}

/// The coins of one type offered for merging: every coin of that type,
/// all but `selected_id` preselected.
pub open spec fn merge_candidates_of(
    coins: Seq<crate::types::CoinDisplay>,
    coin_type: Seq<char>,
    selected_id: Seq<char>,
) -> Seq<(String, String, String, bool)>
    decreases coins.len(),
{
    if coins.len() == 0 {
        Seq::empty()
    } else {
        let r = merge_candidates_of(coins.drop_last(), coin_type, selected_id);
        let c = coins.last();
        if c.coin_type@ == coin_type {
            r.push((c.object_id, c.symbol, c.balance_display, c.object_id@ != selected_id))
        } else {
            r
        }
    }
}

/// The ids of the candidates marked for merging, in order.
pub open spec fn selected_merge_ids(cands: Seq<(String, String, String, bool)>) -> Seq<String>
    decreases cands.len(),
{
    if cands.len() == 0 {
        Seq::empty()
    } else if cands.last().3 {
        selected_merge_ids(cands.drop_last()).push(cands.last().0)
    } else {
        selected_merge_ids(cands.drop_last())
    }
}

impl App {
    /// `explore_item(query)` was done: the explorer looks `query` up and
    /// remembers which overlay to return to.
    pub open spec fn explored(&self, old: &App, query: String) -> bool {
        &&& self.return_to_section == if old.return_to_section is None {
            old.section_open
        } else {
            old.return_to_section
        }
        &&& self.explorer.lookup_reset_of(&old.explorer, query@)
        &&& self.outbox@ == old.outbox@.push(WalletCmd::LookupAddress(query))
        &&& *self == (App {
            return_to_section: self.return_to_section,
            section_open: None,
            popup: None,
            popup_scroll: 0,
            input_mode: InputMode::Normal,
            context_menu: None,
            screen: Screen::Explorer,
            explorer: self.explorer,
            search_buffer: query,
            exploring: Some(query),
            outbox: self.outbox,
            ..*old
        })
    }

    /// Navigate to Explorer > Lookup and immediately submit a lookup query.
    pub fn explore_item(&mut self, query: String)
        ensures
            final(self).explored(old(self), query),
    {
        if self.return_to_section.is_none() {
            self.return_to_section = self.section_open;
        }
        self.section_open = None;
        self.popup = None;
        self.popup_scroll = 0;
        self.input_mode = InputMode::Normal;
        self.context_menu = None;
        self.screen = Screen::Explorer;
        self.explorer.reset_for_lookup(query.as_str());
        self.search_buffer = query.clone();
        self.exploring = Some(query.clone());
        self.send_cmd(WalletCmd::LookupAddress(query));
    }

    /// Navigate to Explorer > Lookup and immediately submit a type search.
    pub fn explore_type(&mut self, type_filter: String)
        ensures
            final(self).explorer.search_reset_of(&old(self).explorer, type_filter@),
            final(self).outbox@ == old(self).outbox@.push(
                WalletCmd::SearchObjectsByType { type_filter, cursor: None },
            ),
            *final(self) == (App {
                screen: Screen::Explorer,
                input_mode: InputMode::Normal,
                popup: None,
                popup_scroll: 0,
                explorer: final(self).explorer,
                outbox: final(self).outbox,
                ..*old(self)
            }),
    {
        self.screen = Screen::Explorer;
        self.input_mode = InputMode::Normal;
        self.popup = None;
        self.popup_scroll = 0;
        self.explorer.reset_for_search(type_filter.as_str());
        self.send_cmd(WalletCmd::SearchObjectsByType { type_filter, cursor: None });
    }

    /// Activate the currently selected coin (explore it).
    pub fn activate_selected_coin(&mut self)
        ensures
            if old(self).coins_selected < old(self).coins@.len() {
                final(self).explored(old(self), old(self).coins@[old(self).coins_selected as int].object_id)
            } else {
                *final(self) == *old(self)
            },
    {
        if self.coins_selected < self.coins.len() {
            let id = self.coins[self.coins_selected].object_id.clone();
            self.explore_item(id);
        }
    }

    /// Activate the currently selected object (explore it).
    pub fn activate_selected_object(&mut self)
        ensures
            if old(self).objects_selected < old(self).objects@.len() {
                final(self).explored(old(self), old(self).objects@[old(self).objects_selected as int].object_id)
            } else {
                *final(self) == *old(self)
            },
    {
        if self.objects_selected < self.objects.len() {
            let id = self.objects[self.objects_selected].object_id.clone();
            self.explore_item(id);
        }
    }

    /// Activate the currently selected transaction (explore it).
    pub fn activate_selected_transaction(&mut self)
        ensures
            if old(self).transactions_selected < old(self).transactions@.len() {
                final(self).explored(
                    old(self),
                    old(self).transactions@[old(self).transactions_selected as int].digest,
                )
            } else {
                *final(self) == *old(self)
            },
    {
        if self.transactions_selected < self.transactions.len() {
            let digest = self.transactions[self.transactions_selected].digest.clone();
            self.explore_item(digest);
        }
    }

    /// Activate the currently selected package (explore it).
    pub fn activate_selected_package(&mut self)
        ensures
            ({
                let p = old(self).spec_package_indices();
                if old(self).packages_selected < p.len() {
                    final(self).explored(
                        old(self),
                        old(self).objects@[p[old(self).packages_selected as int] as int].object_id,
                    )
                } else {
                    *final(self) == *old(self)
                }
            }),
    {
        let packages = self.package_indices();
        if self.packages_selected < packages.len() {
            let obj_idx = packages[self.packages_selected];
            let _n = self.objects.len();
            proof {
                crate::seqs::lemma_index_filter_members(
                    self.objects@.len(),
                    |i: int| crate::listing::is_package_object(self.objects@[i]),
                );
            }
            let id = self.objects[obj_idx].object_id.clone();
            self.explore_item(id);
        }
    }

    /// Browse modules of the currently selected package.
    pub fn browse_selected_package(&mut self)
        ensures
            ({
                let p = old(self).spec_package_indices();
                if old(self).packages_selected < p.len() {
                    &&& final(self).outbox@ == old(self).outbox@.push(
                        WalletCmd::FetchPackageModules {
                            package_addr: old(self).objects@[p[old(self).packages_selected as int] as int].object_id,
                        },
                    )
                    &&& *final(self) == (App { loading: true, outbox: final(self).outbox, ..*old(self) })
                } else {
                    *final(self) == *old(self)
                }
            }),
    {
        let packages = self.package_indices();
        if self.packages_selected < packages.len() {
            let obj_idx = packages[self.packages_selected];
            let _n = self.objects.len();
            proof {
                crate::seqs::lemma_index_filter_members(
                    self.objects@.len(),
                    |i: int| crate::listing::is_package_object(self.objects@[i]),
                );
            }
            let id = self.objects[obj_idx].object_id.clone();
            self.loading = true;
            self.send_cmd(WalletCmd::FetchPackageModules { package_addr: id });
        }
    }

    /// Browse functions of the currently selected module.
    pub fn browse_selected_module(&mut self)
        ensures
            if old(self).pkg_modules_selected < old(self).pkg_modules@.len() {
                &&& final(self).outbox@ == old(self).outbox@.push(
                    WalletCmd::FetchModuleFunctions {
                        package_addr: old(self).pkg_selected_id,
                        module_name: old(self).pkg_modules@[old(self).pkg_modules_selected as int].name,
                    },
                )
                &&& *final(self) == (App { loading: true, outbox: final(self).outbox, ..*old(self) })
            } else {
                *final(self) == *old(self)
            },
    {
        if self.pkg_modules_selected < self.pkg_modules.len() {
            let module_name = self.pkg_modules[self.pkg_modules_selected].name.clone();
            self.loading = true;
            let package_addr = self.pkg_selected_id.clone();
            self.send_cmd(WalletCmd::FetchModuleFunctions { package_addr, module_name });
        }
    }

    /// `request_refresh` was done on `old`: loading, and the refresh
    /// commands queued for every visible account when several are shown
    /// (the merged lists cleared, history and stakes of the active key), else
    /// for the one visible account, or the active one.
    #[verifier::opaque]
    pub open spec fn refreshed(&self, old: &App) -> bool {
        let vis = visible_keys(old.keys@);
        if vis.len() > 1 {
            &&& self.coins@.len() == 0
            &&& self.objects@.len() == 0
            &&& self.outbox@ == old.outbox@ + all_refresh_cmds(vis) + match old.spec_active_index() {
                Some(i) => history_cmds(old.keys@[i as int]),
                None => Seq::empty(),
            }
            &&& *self == (App {
                loading: true,
                coins: self.coins,
                objects: self.objects,
                total_balance_iota: 0,
                outbox: self.outbox,
                ..*old
            })
        } else {
            &&& self.outbox@ == old.outbox@ + if vis.len() == 1 {
                key_refresh_cmds(vis[0]) + history_cmds(vis[0])
            } else {
                match old.spec_active_index() {
                    Some(i) => key_refresh_cmds(old.keys@[i as int]) + history_cmds(
                        old.keys@[i as int],
                    ),
                    None => Seq::empty(),
                }
            }
            &&& *self == (App { loading: true, outbox: self.outbox, ..*old })
        }
    }

    /// A refresh changes nothing but the loading flag, the coin and object
    /// lists, the IOTA total and the outbox.
    pub proof fn lemma_refreshed_frame(&self, o: &App)
        requires
            self.refreshed(o),
        ensures
            *self == (App {
                loading: true,
                coins: self.coins,
                objects: self.objects,
                total_balance_iota: self.total_balance_iota,
                outbox: self.outbox,
                ..*o
            }),
    {
        reveal(App::refreshed);
    }

    /// Request a data refresh for the visible keys' addresses.
    #[verifier::rlimit(40)]
    pub fn request_refresh(&mut self)
        ensures
            final(self).refreshed(old(self)),
    {
        proof {
            reveal(App::refreshed);
        }
        self.loading = true;
        let vis = self.visible_key_list();
        if vis.len() > 1 {
            self.refresh_several(&vis);
        } else {
            self.refresh_one(&vis);
        }
    }

    /// Refresh several visible accounts: clear the merged lists, refresh
    /// each account, then the history of the active key.
    fn refresh_several(&mut self, vis: &Vec<KeyDisplay>)
        ensures
            final(self).coins@.len() == 0,
            final(self).objects@.len() == 0,
            final(self).outbox@ == old(self).outbox@ + all_refresh_cmds(vis@) + match old(
                self,
            ).spec_active_index() {
                Some(i) => history_cmds(old(self).keys@[i as int]),
                None => Seq::empty(),
            },
            *final(self) == (App {
                coins: final(self).coins,
                objects: final(self).objects,
                total_balance_iota: 0,
                outbox: final(self).outbox,
                ..*old(self)
            }),
    {
        let ghost start = self.outbox@;
        self.coins.clear();
        self.objects.clear();
        self.total_balance_iota = 0;
        assert(vis@.take(0) =~= Seq::<KeyDisplay>::empty());
        let ghost pre = *self;
        for j in 0..vis.len()
            invariant
                self.outbox@ == start + all_refresh_cmds(vis@.take(j as int)),
                *self == (App { outbox: self.outbox, ..pre }),
        {
            proof {
                assert(vis@.take(j + 1).drop_last() =~= vis@.take(j as int));
            }
            self.queue_key_refresh(&vis[j]);
            proof {
                assert(self.outbox@ =~= start + all_refresh_cmds(vis@.take(j + 1)));
            }
        }
        assert(vis@.take(vis@.len() as int) =~= vis@);
        let ghost mid = self.outbox@;
        let key = match self.active_key() {
            Some(k) => Some(k.clone()),
            None => None,
        };
        match key {
            Some(k) => {
                self.queue_history(&k);
            },
            None => {
                assert(mid + Seq::<WalletCmd>::empty() =~= mid);
            },
        }
    }

    /// Refresh the one visible account, or the active one when none is visible.
    fn refresh_one(&mut self, vis: &Vec<KeyDisplay>)
        requires
            vis@.len() <= 1,
        ensures
            final(self).outbox@ == old(self).outbox@ + if vis@.len() == 1 {
                key_refresh_cmds(vis@[0]) + history_cmds(vis@[0])
            } else {
                match old(self).spec_active_index() {
                    Some(i) => key_refresh_cmds(old(self).keys@[i as int]) + history_cmds(
                        old(self).keys@[i as int],
                    ),
                    None => Seq::empty(),
                }
            },
            *final(self) == (App { outbox: final(self).outbox, ..*old(self) }),
    {
        let ghost start = self.outbox@;
        let key: Option<KeyDisplay> = if vis.len() == 1 {
            Some(vis[0].clone())
        } else {
            match self.active_key() {
                Some(k) => Some(k.clone()),
                None => None,
            }
        };
        match key {
            Some(k) => {
                self.queue_key_refresh(&k);
                self.queue_history(&k);
                assert(self.outbox@ =~= start + (key_refresh_cmds(k) + history_cmds(k)));
            },
            None => {
                assert(self.outbox@ =~= start + Seq::<WalletCmd>::empty());
            },
        }
    }

    /// The visible keys, in order.
    fn visible_key_list(&self) -> (vis: Vec<KeyDisplay>)
        ensures
            vis@ == visible_keys(self.keys@),
    {
        let mut vis: Vec<KeyDisplay> = Vec::new();
        let ghost ks = self.keys@;
        assert(ks.take(0) =~= Seq::<KeyDisplay>::empty());
        for i in 0..self.keys.len()
            invariant
                ks == self.keys@,
                vis@ == visible_keys(ks.take(i as int)),
        {
            proof {
                assert(ks.take(i + 1).drop_last() =~= ks.take(i as int));
                reveal_with_fuel(Seq::filter, 1);
            }
            if self.keys[i].visible {
                vis.push(self.keys[i].clone());
            }
        }
        assert(ks.take(ks.len() as int) =~= ks);
        vis
    }

    /// Queue the refresh of one account's coins, objects and balances.
    fn queue_key_refresh(&mut self, k: &KeyDisplay)
        ensures
            final(self).outbox@ == old(self).outbox@ + key_refresh_cmds(*k),
            *final(self) == (App { outbox: final(self).outbox, ..*old(self) }),
    {
        let ghost start = self.outbox@;
        self.send_cmd(WalletCmd::RefreshCoins { addr: k.address.clone(), alias: k.alias.clone() });
        self.send_cmd(WalletCmd::RefreshObjects { addr: k.address.clone(), alias: k.alias.clone() });
        self.send_cmd(WalletCmd::RefreshBalances(k.address.clone()));
        assert(self.outbox@ =~= start + key_refresh_cmds(*k));
    }

    /// Queue the refresh of one account's transactions and stakes.
    fn queue_history(&mut self, k: &KeyDisplay)
        ensures
            final(self).outbox@ == old(self).outbox@ + history_cmds(*k),
            *final(self) == (App { outbox: final(self).outbox, ..*old(self) }),
    {
        let ghost start = self.outbox@;
        self.send_cmd(WalletCmd::RefreshTransactions(k.address.clone()));
        self.send_cmd(WalletCmd::RefreshStakes(k.address.clone()));
        assert(self.outbox@ =~= start + history_cmds(*k));
    }
}

impl App {
    /// The transaction builder holds exactly one command and is open on the
    /// review step; a dry run of that command was requested.
    pub open spec fn in_review(&self, old: &App) -> bool {
        &&& self.tx.commands@.len() == 1
        &&& self.tx.step == TxBuilderStep::Review
        &&& self.tx.sender == old.tx.sender
        &&& self.tx.cmd_selected == 0
        &&& self.tx.gas_budget@ == crate::tx_builder::default_gas_budget()
        &&& self.tx.edit_field == 0
        &&& self.tx.edit_buffers@.len() == 0
        &&& self.tx.adding_cmd is None
        &&& self.tx.dry_run is None
        &&& self.tx.dry_running
        &&& !self.tx.dry_run_dirty
        &&& !self.tx.gas_edited
        &&& self.tx.multi_values@.len() == 0
        &&& self.outbox@.len() == old.outbox@.len() + 1
        &&& self.outbox@.take(old.outbox@.len() as int) == old.outbox@
        &&& self.outbox@.last() matches WalletCmd::DryRun { sender_idx, commands } && sender_idx
            == old.tx.sender && commands@.len() == 1 && commands@[0].spec_eqv(
            &self.tx.commands@[0],
        )
        &&& *self == (App {
            tx: self.tx,
            section_open: None,
            tx_builder_open: true,
            screen: Screen::TxBuilder,
            input_mode: InputMode::Normal,
            popup: None,
            outbox: self.outbox,
            ..*old
        })
    }

    /// Start a one-command transaction at the review step and ask for a dry run.
    fn enter_review(&mut self, cmd: PtbCommand, copy: PtbCommand)
        requires
            copy.spec_eqv(&cmd),
        ensures
            final(self).in_review(old(self)),
            final(self).tx.commands@[0] == cmd,
    {
        self.tx.reset();
        self.tx.commands.push(cmd);
        self.tx.step = TxBuilderStep::Review;
        self.section_open = None;
        self.tx_builder_open = true;
        self.screen = Screen::TxBuilder;
        self.input_mode = InputMode::Normal;
        self.popup = None;
        let mut commands: Vec<PtbCommand> = Vec::new();
        commands.push(copy);
        let sender_idx = self.tx.sender;
        self.send_cmd(WalletCmd::DryRun { sender_idx, commands });
        self.tx.dry_running = true;
        self.tx.dry_run_dirty = false;
        assert(self.outbox@.take(old(self).outbox@.len() as int) =~= old(self).outbox@);
        assert(self.tx.commands@ =~= seq![cmd]);
        assert(self.outbox@.last() matches WalletCmd::DryRun { sender_idx, commands } && sender_idx
            == old(self).tx.sender && commands@.len() == 1);
        assert(self.tx.commands@.len() == 1);
        assert(*self == (App {
            tx: self.tx,
            section_open: None,
            tx_builder_open: true,
            screen: Screen::TxBuilder,
            input_mode: InputMode::Normal,
            popup: None,
            outbox: self.outbox,
            ..*old(self)
        }));
    }

    /// Open the merge popup with all coins of the selected coin's type.
    pub fn merge_coins_for_selected(&mut self)
        ensures
            if old(self).coins_selected < old(self).coins@.len() {
                let sel = old(self).coins@[old(self).coins_selected as int];
                let cands = merge_candidates_of(old(self).coins@, sel.coin_type@, sel.object_id@);
                if cands.len() < 2 {
                    &&& final(self).clipboard_toast matches Some(t) && t@
                        == "Only one coin of this type — nothing to merge"@
                    &&& *final(self) == (App {
                        clipboard_toast: final(self).clipboard_toast,
                        ..*old(self)
                    })
                } else {
                    &&& final(self).merge_candidates@ == cands
                    &&& *final(self) == (App {
                        merge_candidates: final(self).merge_candidates,
                        merge_cursor: 0,
                        popup: Some(Popup::MergeCoin),
                        popup_scroll: 0,
                        popup_focus: crate::types::PopupFocus::Fields,
                        ..*old(self)
                    })
                }
            } else {
                *final(self) == *old(self)
            },
    {
        if self.coins_selected >= self.coins.len() {
            return ;
        }
        let coin_type = self.coins[self.coins_selected].coin_type.clone();
        let selected_id = self.coins[self.coins_selected].object_id.clone();
        let mut candidates: Vec<(String, String, String, bool)> = Vec::new();
        let ghost cs = self.coins@;
        assert(cs.take(0) =~= Seq::<crate::types::CoinDisplay>::empty());
        for i in 0..self.coins.len()
            invariant
                cs == self.coins@,
                candidates@ == merge_candidates_of(cs.take(i as int), coin_type@, selected_id@),
        {
            proof {
                assert(cs.take(i + 1).drop_last() =~= cs.take(i as int));
            }
            let c = &self.coins[i];
            if c.coin_type == coin_type {
                let pre = !(c.object_id == selected_id);
                candidates.push(
                    (c.object_id.clone(), c.symbol.clone(), c.balance_display.clone(), pre),
                );
            }
        }
        assert(cs.take(cs.len() as int) =~= cs);
        if candidates.len() < 2 {
            self.clipboard_toast = Some(owned("Only one coin of this type — nothing to merge"));
            return ;
        }
        self.merge_candidates = candidates;
        self.merge_cursor = 0;
        self.open_popup(Popup::MergeCoin);
    }

    /// Execute merge for the coins selected in the merge popup.
    /// The first selected coin becomes the primary; the rest are sources.
    pub fn finalize_merge_coins(&mut self)
        ensures
            ({
                let sel = selected_merge_ids(old(self).merge_candidates@);
                if sel.len() < 2 {
                    &&& final(self).clipboard_toast matches Some(t) && t@
                        == "Select at least 2 coins to merge"@
                    &&& *final(self) == (App {
                        clipboard_toast: final(self).clipboard_toast,
                        ..*old(self)
                    })
                } else {
                    &&& final(self).in_review(old(self))
                    &&& final(self).tx.commands@[0] matches PtbCommand::MergeCoins {
                        primary,
                        sources,
                    } && primary == sel[0] && sources@ == sel.skip(1)
                }
            }),
    {
        let mut selected: Vec<String> = Vec::new();
        let ghost ms = self.merge_candidates@;
        assert(ms.take(0) =~= Seq::<(String, String, String, bool)>::empty());
        for i in 0..self.merge_candidates.len()
            invariant
                ms == self.merge_candidates@,
                selected@ == selected_merge_ids(ms.take(i as int)),
        {
            proof {
                assert(ms.take(i + 1).drop_last() =~= ms.take(i as int));
            }
            if self.merge_candidates[i].3 {
                selected.push(self.merge_candidates[i].0.clone());
            }
        }
        assert(ms.take(ms.len() as int) =~= ms);
        if selected.len() < 2 {
            self.clipboard_toast = Some(owned("Select at least 2 coins to merge"));
            return ;
        }
        let primary = selected[0].clone();
        let mut sources: Vec<String> = Vec::new();
        let mut sources2: Vec<String> = Vec::new();
        for i in 1..selected.len()
            invariant
                sources@ == selected@.subrange(1, i as int),
                sources2@ == selected@.subrange(1, i as int),
        {
            sources.push(selected[i].clone());
            sources2.push(selected[i].clone());
            proof {
                assert(selected@.subrange(1, i + 1) =~= selected@.subrange(1, i as int).push(
                    selected@[i as int],
                ));
            }
        }
        assert(selected@.subrange(1, selected@.len() as int) =~= selected@.skip(1));
        let copy = PtbCommand::MergeCoins { primary: primary.clone(), sources: sources2 };
        self.enter_review(PtbCommand::MergeCoins { primary, sources }, copy);
    }

    /// Build a SplitCoins transaction from the selected coin, splitting into
    /// `n` equal parts (the last part keeps the remainder).
    pub fn split_selected_coin(&mut self, n: usize)
        ensures
            if old(self).coins_selected < old(self).coins@.len() {
                let c = old(self).coins@[old(self).coins_selected as int];
                if n < 2 {
                    &&& final(self).clipboard_toast matches Some(t) && t@
                        == "Need at least 2 parts to split"@
                    &&& *final(self) == (App {
                        clipboard_toast: final(self).clipboard_toast,
                        ..*old(self)
                    })
                } else if (c.balance as nat) / (n as nat) == 0 {
                    &&& final(self).clipboard_toast matches Some(t) && t@
                        == "Coin balance too small to split"@
                    &&& *final(self) == (App {
                        clipboard_toast: final(self).clipboard_toast,
                        ..*old(self)
                    })
                } else {
                    &&& final(self).in_review(old(self))
                    &&& final(self).tx.commands@[0] matches PtbCommand::SplitCoins { coin, amounts }
                        && coin == c.object_id && amounts@.len() == n - 1 && forall|i: int|
                        0 <= i < n - 1 ==> (#[trigger] amounts@[i])@ == dec((c.balance as nat) / (n as nat))
                }
            } else {
                *final(self) == *old(self)
            },
    {
        if self.coins_selected >= self.coins.len() {
            return ;
        }
        if n < 2 {
            self.clipboard_toast = Some(owned("Need at least 2 parts to split"));
            return ;
        }
        let balance = self.coins[self.coins_selected].balance;
        let amount_per = balance / (n as u128);
        if amount_per == 0 {
            self.clipboard_toast = Some(owned("Coin balance too small to split"));
            return ;
        }
        let mut amounts: Vec<String> = Vec::new();
        let mut amounts2: Vec<String> = Vec::new();
        for i in 0..n - 1
            invariant
                amounts@.len() == i,
                amounts2@ == amounts@,
                forall|j: int| 0 <= j < i ==> (#[trigger] amounts@[j])@ == dec(amount_per as nat),
        {
            let mut a = String::new();
            push_dec(&mut a, amount_per);
            assert(a@ =~= dec(amount_per as nat));
            amounts2.push(a.clone());
            amounts.push(a);
        }
        let coin = self.coins[self.coins_selected].object_id.clone();
        let copy = PtbCommand::SplitCoins { coin: coin.clone(), amounts: amounts2 };
        self.enter_review(PtbCommand::SplitCoins { coin, amounts }, copy);
    }

    /// Build a TransferIota transaction from the quick transfer popup fields.
    pub fn finalize_quick_transfer(&mut self)
        ensures
            ({
                let recipient = old(self).quick_transfer_buffers@[0];
                let amount = old(self).quick_transfer_buffers@[1];
                if recipient@.len() == 0 || amount@.len() == 0 {
                    *final(self) == *old(self)
                } else if spec_parse_iota_amount(amount@) is None {
                    &&& final(self).clipboard_toast matches Some(t) && t@ == "Invalid amount"@
                    &&& *final(self) == (App {
                        clipboard_toast: final(self).clipboard_toast,
                        ..*old(self)
                    })
                } else {
                    &&& final(self).in_review(old(self))
                    &&& final(self).tx.commands@[0] matches PtbCommand::TransferIota {
                        recipient: r,
                        amount: a,
                    } && r@ == old(self).spec_resolve_address(recipient@) && a == amount
                }
            }),
    {
        let recipient = self.quick_transfer_buffers[0].clone();
        let amount = self.quick_transfer_buffers[1].clone();
        if recipient.as_str().is_empty() || amount.as_str().is_empty() {
            return ;
        }
        let resolved = self.resolve_address(recipient.as_str());
        if parse_iota_amount(amount.as_str()).is_none() {
            self.clipboard_toast = Some(owned("Invalid amount"));
            return ;
        }
        let copy = PtbCommand::TransferIota { recipient: resolved.clone(), amount: amount.clone() };
        self.enter_review(PtbCommand::TransferIota { recipient: resolved, amount }, copy);
    }

    /// Build a TransferObjects transaction for the selected (filtered) object.
    pub fn finalize_object_transfer(&mut self)
        ensures
            ({
                let recipient = old(self).input_buffer;
                let f = old(self).spec_filtered_objects();
                if recipient@.len() == 0 || old(self).objects_selected >= f.len() {
                    *final(self) == *old(self)
                } else {
                    let obj = old(self).objects@[f[old(self).objects_selected as int] as int];
                    &&& final(self).in_review(old(self))
                    &&& final(self).tx.commands@[0] matches PtbCommand::TransferObjects {
                        recipient: r,
                        object_ids,
                    } && r@ == old(self).spec_resolve_address(recipient@) && object_ids@ == seq![
                        obj.object_id,
                    ]
                }
            }),
    {
        if self.input_buffer.as_str().is_empty() {
            return ;
        }
        let filtered = self.filtered_objects();
        if self.objects_selected >= filtered.len() {
            return ;
        }
        let real_idx = filtered[self.objects_selected];
        let _n = self.objects.len();
        proof {
            if crate::listing::filter_active(self.objects_filter) {
                let q = crate::listing::filter_query(self.objects_filter);
                crate::seqs::lemma_index_filter_members(
                    self.objects@.len(),
                    |i: int| crate::listing::object_matches(self.objects@[i], q),
                );
            }
        }
        let object_id = self.objects[real_idx].object_id.clone();
        let resolved = self.resolve_address(self.input_buffer.as_str());
        let mut ids: Vec<String> = Vec::new();
        ids.push(object_id.clone());
        let mut ids2: Vec<String> = Vec::new();
        ids2.push(object_id);
        assert(ids@ =~= ids2@);
        let copy = PtbCommand::TransferObjects { recipient: resolved.clone(), object_ids: ids2 };
        self.enter_review(PtbCommand::TransferObjects { recipient: resolved, object_ids: ids }, copy);
    }

    /// The gas budget the builder will use: the typed one, or the default.
    pub open spec fn spec_gas_budget(&self) -> nat {
        match spec_parse_u64(self.tx.gas_budget@) {
            Some(g) => g as nat,
            None => 10_000_000,
        }
    }

    /// Validate that available balance covers transfers + gas.
    pub fn validate_balance(&self) -> (r: Result<(), String>)
        requires
            transfer_total(self.tx.commands@) <= u64::MAX,
        ensures
            ({
                let required = transfer_total(self.tx.commands@) + self.spec_gas_budget();
                &&& r is Ok <==> required <= self.total_balance_iota
                &&& r matches Err(msg) ==> msg@ == "Insufficient balance: need "@ + spec_format_iota(
                    required,
                ) + " IOTA but have "@ + spec_format_iota(self.total_balance_iota as nat)
            }),
    {
        let gas_budget: u64 = match parse_u64(self.tx.gas_budget.as_str()) {
            Some(g) => g,
            None => 10_000_000,
        };
        let transfer_total = self.tx.total_transfer_nanos();
        let required = transfer_total as u128 + gas_budget as u128;
        if required > self.total_balance_iota {
            let mut msg = owned("Insufficient balance: need ");
            let need = format_iota(required);
            push_str(&mut msg, need.as_str());
            push_str(&mut msg, " IOTA but have ");
            let have = format_iota(self.total_balance_iota);
            push_str(&mut msg, have.as_str());
            Err(msg)
        } else {
            Ok(())
        }
    }
}

} // verus!
