//! The context menu of a list: moving through its actions and running one.

use vstd::prelude::*;
use crate::hints::{HintRequest, click_merge};
use crate::keys::Key;
use crate::seqs::first_index;
use crate::state::App;
use crate::types::{ContextAction, ContextMenu, Popup, PtbCommand, Section, TxBuilderStep};
use crate::wallet::WalletCmd;

verus! {

impl App {
    /// The explorer overlay opened on `q`, typed into the search bar, with a
    /// lookup of it asked for.
    pub open spec fn overlay_explored(&self, o: &App, q: String) -> bool {
        &&& self.outbox@ == o.outbox@.push(WalletCmd::LookupAddress(q))
        &&& *self == (App { search_buffer: q, exploring: Some(q), outbox: self.outbox, ..*o })
    }

    /// What running `action` from the menu of `section` did, `r` being
    /// what is left to the caller (copying). The screen first switches to
    /// the section's.
    #[verifier::opaque]
    pub open spec fn context_action_done(
        &self,
        o: &App,
        section: Section,
        action: ContextAction,
        r: HintRequest,
    ) -> bool {
        let m = App { screen: section.spec_to_screen(), ..*o };
        match action {
            ContextAction::CopyId => r == HintRequest::Copy && *self == m,
            ContextAction::CopyDigest => r == HintRequest::Copy && *self == m,
            _ => r == HintRequest::Done && match action {
                ContextAction::Send => {
                    &&& self.quick_transfer_buffers@.len() == 2
                    &&& forall|i: int|
                        0 <= i < 2 ==> (#[trigger] self.quick_transfer_buffers@[i])@.len() == 0
                    &&& self.popup_opened(
                        &App {
                            quick_transfer_field: 0,
                            quick_transfer_buffers: self.quick_transfer_buffers,
                            ..m
                        },
                        Popup::QuickTransfer,
                    )
                },
                ContextAction::Merge => self.merge_clicked(&m),
                ContextAction::Split => self.popup_opened(&m, Popup::SplitCoin),
                ContextAction::Transfer => self.popup_opened(&m, Popup::ObjectTransfer),
                ContextAction::Unstake => if o.stakes_selected < o.stakes@.len() {
                    let cmd = PtbCommand::Unstake {
                        staked_iota_id: o.stakes@[o.stakes_selected as int].object_id,
                    };
                    &&& self.tx.commands@ == seq![cmd]
                    &&& self.tx.is_reset_but_commands_and_step()
                    &&& self.tx.step == TxBuilderStep::Review
                    &&& self.tx.sender == o.tx.sender
                    &&& self.outbox@.len() == o.outbox@.len() + 1
                    &&& self.outbox@.take(o.outbox@.len() as int) == o.outbox@
                    &&& self.outbox@.last() matches WalletCmd::DryRun { sender_idx, commands }
                        && sender_idx == o.tx.sender && commands@ == seq![cmd]
                    &&& *self == (App {
                        tx: self.tx,
                        tx_builder_open: true,
                        outbox: self.outbox,
                        ..m
                    })
                } else {
                    *self == m
                },
                ContextAction::Explore => {
                    let q = match section {
                        Section::Coins => if o.coins_selected < o.coins@.len() {
                            Some(o.coins@[o.coins_selected as int].object_id)
                        } else {
                            None
                        },
                        Section::Objects => if o.objects_selected < o.objects@.len() {
                            Some(o.objects@[o.objects_selected as int].object_id)
                        } else {
                            None
                        },
                        _ => None,
                    };
                    match q {
                        Some(q) => self.overlay_explored(&m, q),
                        None => *self == m,
                    }
                },
                ContextAction::ExplorePackage => {
                    let p = o.spec_package_indices();
                    if o.packages_selected < p.len() {
                        self.overlay_explored(&m, o.objects@[p[o.packages_selected as int] as int].object_id)
                    } else {
                        *self == m
                    }
                },
                _ => self.popup_opened(&m, Popup::Detail),
            },
        }
    }
}

impl crate::tx_builder::TxBuilderState {
    /// Everything but the commands, the step and the sender as in a fresh
    /// builder.
    pub open spec fn is_reset_but_commands_and_step(&self) -> bool {
        &&& self.cmd_selected == 0
        &&& self.gas_budget@ == crate::tx_builder::default_gas_budget()
        &&& self.edit_field == 0
        &&& self.edit_buffers@.len() == 0
        &&& self.adding_cmd is None
        &&& self.dry_run is None
        &&& !self.dry_running
        &&& self.dry_run_dirty
        &&& !self.gas_edited
        &&& self.multi_values@.len() == 0
    }
}

fn send_action(app: &mut App)
    ensures
        final(app).quick_transfer_buffers@.len() == 2,
        forall|i: int| 0 <= i < 2 ==> (#[trigger] final(app).quick_transfer_buffers@[i])@.len() == 0,
        final(app).popup_opened(
            &App {
                quick_transfer_field: 0,
                quick_transfer_buffers: final(app).quick_transfer_buffers,
                ..*old(app)
            },
            Popup::QuickTransfer,
        ),
{
    app.quick_transfer_field = 0;
    app.quick_transfer_buffers = [String::new(), String::new()];
    assert(app.quick_transfer_buffers@.len() == 2);
    assert(forall|i: int| 0 <= i < 2 ==> (#[trigger] app.quick_transfer_buffers@[i])@.len() == 0);
    app.open_popup(Popup::QuickTransfer);
}

fn unstake_action(app: &mut App)
    ensures
        if old(app).stakes_selected < old(app).stakes@.len() {
            let cmd = PtbCommand::Unstake {
                staked_iota_id: old(app).stakes@[old(app).stakes_selected as int].object_id,
            };
            &&& final(app).tx.commands@ == seq![cmd]
            &&& final(app).tx.is_reset_but_commands_and_step()
            &&& final(app).tx.step == TxBuilderStep::Review
            &&& final(app).tx.sender == old(app).tx.sender
            &&& final(app).outbox@.len() == old(app).outbox@.len() + 1
            &&& final(app).outbox@.take(old(app).outbox@.len() as int) == old(app).outbox@
            &&& final(app).outbox@.last() matches WalletCmd::DryRun { sender_idx, commands }
                && sender_idx == old(app).tx.sender && commands@ == seq![cmd]
            &&& *final(app) == (App {
                tx: final(app).tx,
                tx_builder_open: true,
                outbox: final(app).outbox,
                ..*old(app)
            })
        } else {
            *final(app) == *old(app)
        },
{
    if app.stakes_selected < app.stakes.len() {
        let id = app.stakes[app.stakes_selected].object_id.clone();
        let copy = id.clone();
        app.tx.reset();
        app.tx.commands.push(PtbCommand::Unstake { staked_iota_id: id });
        app.tx.step = TxBuilderStep::Review;
        assert(app.tx.commands@ =~= seq![PtbCommand::Unstake { staked_iota_id: id }]);
        app.tx_builder_open = true;
        let mut commands: Vec<PtbCommand> = Vec::new();
        commands.push(PtbCommand::Unstake { staked_iota_id: copy });
        assert(commands@ =~= seq![PtbCommand::Unstake { staked_iota_id: id }]);
        let sender_idx = app.tx.sender;
        app.send_cmd(WalletCmd::DryRun { sender_idx, commands });
        assert(app.outbox@.take(old(app).outbox@.len() as int) =~= old(app).outbox@);
    }
}

fn explore_in_overlay(app: &mut App, q: String)
    ensures
        final(app).overlay_explored(old(app), q),
{
    app.search_buffer = q.clone();
    app.exploring = Some(q.clone());
    app.send_cmd(WalletCmd::LookupAddress(q));
}

fn explore_action(app: &mut App, section: Section)
    ensures
        ({
            let o = old(app);
            let q = match section {
                Section::Coins => if o.coins_selected < o.coins@.len() {
                    Some(o.coins@[o.coins_selected as int].object_id)
                } else {
                    None
                },
                Section::Objects => if o.objects_selected < o.objects@.len() {
                    Some(o.objects@[o.objects_selected as int].object_id)
                } else {
                    None
                },
                _ => None,
            };
            match q {
                Some(q) => final(app).overlay_explored(o, q),
                None => *final(app) == *o,
            }
        }),
{
    match section {
        Section::Coins => {
            if app.coins_selected < app.coins.len() {
                let q = app.coins[app.coins_selected].object_id.clone();
                explore_in_overlay(app, q);
            }
        },
        Section::Objects => {
            if app.objects_selected < app.objects.len() {
                let q = app.objects[app.objects_selected].object_id.clone();
                explore_in_overlay(app, q);
            }
        },
        _ => {},
    }
}

fn explore_package_action(app: &mut App)
    ensures
        ({
            let o = old(app);
            let p = o.spec_package_indices();
            if o.packages_selected < p.len() {
                final(app).overlay_explored(o, o.objects@[p[o.packages_selected as int] as int].object_id)
            } else {
                *final(app) == *o
            }
        }),
{
    let indices = app.package_indices();
    let n = app.objects.len();
    if app.packages_selected < indices.len() {
        let k = indices[app.packages_selected];
        proof {
            crate::screen_keys::lemma_index_filters_in_range();
            assert(k < n);
        }
        let q = app.objects[k].object_id.clone();
        explore_in_overlay(app, q);
    }
}

/// Run a context-menu action on the selected row of `section`; copying is
/// handed back to the caller, which owns the clipboard.
#[verifier::rlimit(80)]
pub fn execute_context_action(app: &mut App, section: Section, action: ContextAction) -> (r: HintRequest)
    ensures
        final(app).context_action_done(old(app), section, action, r),
{
    proof {
        reveal(App::context_action_done);
    }
    app.screen = section.to_screen();
    match action {
        ContextAction::Send => {
            send_action(app);
            return HintRequest::Done;
        },
        ContextAction::Merge => {
            click_merge(app);
            return HintRequest::Done;
        },
        ContextAction::Split => {
            app.open_popup(Popup::SplitCoin);
            return HintRequest::Done;
        },
        ContextAction::Transfer => {
            app.open_popup(Popup::ObjectTransfer);
            return HintRequest::Done;
        },
        ContextAction::Unstake => {
            unstake_action(app);
            return HintRequest::Done;
        },
        ContextAction::CopyId => {
            return HintRequest::Copy;
        },
        ContextAction::CopyDigest => {
            return HintRequest::Copy;
        },
        ContextAction::Explore => {
            explore_action(app, section);
            return HintRequest::Done;
        },
        ContextAction::ExplorePackage => {
            explore_package_action(app);
            return HintRequest::Done;
        },
        ContextAction::ViewDetails => {
            app.popup_scroll = 0;
            app.open_popup(Popup::Detail);
            return HintRequest::Done;
        },
    }
}

/// The first action of the menu whose shortcut is `c`.
pub open spec fn action_for_char(acts: Seq<ContextAction>, c: char) -> Option<nat> {
    first_index(acts.len(), |j: int| acts[j].spec_shortcut() == c)
}

impl App {
    /// The menu is still open, with its selection at `sel`.
    pub open spec fn menu_selection_moved(&self, o: &App, sel: usize) -> bool {
        *self == (App { context_menu: Some(ContextMenu { selected: sel, ..o.context_menu->0 }), ..*o })
    }

    /// What a key does in the context menu: Esc closes it; Up and Down move
    /// around its actions (wrapping); Enter, or an action's shortcut, closes
    /// it and runs that action.
    #[verifier::opaque]
    pub open spec fn context_key_handled(&self, o: &App, key: Key, r: HintRequest) -> bool {
        match o.context_menu {
            None => r == HintRequest::Done && *self == *o,
            Some(menu) => {
                let acts = menu.actions@;
                let closed = App { context_menu: None, ..*o };
                match key {
                    Key::Esc => r == HintRequest::Done && *self == closed,
                    Key::Up => r == HintRequest::Done && self.menu_selection_moved(
                        o,
                        if menu.selected > 0 {
                            (menu.selected - 1) as usize
                        } else if acts.len() > 0 {
                            (acts.len() - 1) as usize
                        } else {
                            0
                        },
                    ),
                    Key::Down => r == HintRequest::Done && self.menu_selection_moved(
                        o,
                        ((menu.selected + 1) % (acts.len() as int)) as usize,
                    ),
                    Key::Enter => self.context_action_done(
                        &closed,
                        menu.section,
                        acts[menu.selected as int],
                        r,
                    ),
                    Key::Char(c) => match action_for_char(acts, c) {
                        Some(i) => self.context_action_done(&closed, menu.section, acts[i as int], r),
                        None => r == HintRequest::Done && *self == *o,
                    },
                    _ => r == HintRequest::Done && *self == *o,
                }
            },
        }
    }

    /// What the context menu needs: a selection that can move and that
    /// names one of its actions.
    pub open spec fn context_key_ok(&self) -> bool {
        self.context_menu matches Some(m) ==> m.selected < m.actions@.len() && m.selected + 1
            <= usize::MAX
    }
}

fn shortcut_index(acts: &Vec<ContextAction>, c: char) -> (r: Option<usize>)
    ensures
        r matches Some(i) ==> i < acts@.len(),
        match r {
            Some(i) => action_for_char(acts@, c) == Some(i as nat),
            None => action_for_char(acts@, c) is None,
        },
{
    let ghost p = |j: int| acts@[j].spec_shortcut() == c;
    for i in 0..acts.len()
        invariant
            first_index(i as nat, p) is None,
            p == (|j: int| acts@[j].spec_shortcut() == c),
    {
        if acts[i].shortcut() == c {
            proof {
                crate::seqs::lemma_first_index_found(acts@.len(), p, i as nat);
            }
            return Some(i);
        }
    }
    None
}

/// Keys in the context menu; copying is handed back to the caller.
pub fn handle_context_menu_key(app: &mut App, key: Key) -> (r: HintRequest)
    requires
        old(app).context_key_ok(),
    ensures
        final(app).context_key_handled(old(app), key, r),
{
    proof {
        reveal(App::context_key_handled);
    }
    let (section, selected, n, picked) = match &app.context_menu {
        None => {
            return HintRequest::Done;
        },
        Some(menu) => {
            let picked: Option<usize> = match key {
                Key::Enter => Some(menu.selected),
                Key::Char(c) => shortcut_index(&menu.actions, c),
                _ => None,
            };
            (menu.section, menu.selected, menu.actions.len(), picked)
        },
    };
    match key {
        Key::Esc => {
            app.context_menu = None;
            return HintRequest::Done;
        },
        Key::Up => {
            let sel = if selected > 0 {
                selected - 1
            } else if n > 0 {
                n - 1
            } else {
                0
            };
            match &mut app.context_menu {
                Some(menu) => {
                    menu.selected = sel;
                },
                None => {},
            }
            return HintRequest::Done;
        },
        Key::Down => {
            let sel = (selected + 1) % n;
            match &mut app.context_menu {
                Some(menu) => {
                    menu.selected = sel;
                },
                None => {},
            }
            return HintRequest::Done;
        },
        _ => {},
    }
    match picked {
        Some(i) => {
            let action = match &app.context_menu {
                Some(menu) => menu.actions[i],
                None => ContextAction::ViewDetails,
            };
            app.context_menu = None;
            execute_context_action(app, section, action)
        },
        None => HintRequest::Done,
    }
}

/// Up and then Down in an open context menu leave everything as it was.
pub proof fn lemma_menu_up_then_down(a: App, b: App, c: App, r1: HintRequest, r2: HintRequest)
    requires
        a.context_menu matches Some(m) && m.selected < m.actions@.len() && m.actions@.len()
            <= usize::MAX,
        b.context_key_handled(&a, Key::Up, r1),
        c.context_key_handled(&b, Key::Down, r2),
    ensures
        c == a,
{
    reveal(App::context_key_handled);
    let m = a.context_menu->0;
    let n = m.actions@.len() as int;
    let s = m.selected as int;
    let up: int = if s > 0 {
        s - 1
    } else {
        n - 1
    };
    assert((up + 1) % n == s) by (nonlinear_arith)
        requires
            0 <= s < n,
            up == if s > 0 {
                s - 1
            } else {
                n - 1
            },
    ;
    assert(b == (App { context_menu: Some(ContextMenu { selected: up as usize, ..m }), ..a }));
    let mb = b.context_menu->0;
    assert(mb.actions@.len() == n);
    assert(mb.selected == up);
    assert(((mb.selected + 1) % (mb.actions@.len() as int)) as usize == m.selected);
    assert(c == (App { context_menu: Some(ContextMenu { selected: m.selected, ..mb }), ..b }));
    assert(ContextMenu { selected: m.selected, ..mb } == m);
}

} // verus!
