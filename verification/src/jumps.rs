//! Acting on the selected entry of the package browser, the address book
//! and the key list.

use vstd::prelude::*;
use crate::state::App;
use crate::tx_builder::{default_gas_budget, TxBuilderState};
use crate::types::{
    InputMode, KeyDisplay, ModuleFunctionDisplay, PtbCommand, Screen, TxBuilderStep,
};
use crate::wallet::WalletCmd;

verus! {

/// `n` empty strings.
pub open spec fn blanks(v: Seq<String>, n: nat) -> bool {
    v.len() == n && forall|i: int| 0 <= i < n ==> (#[trigger] v[i])@.len() == 0
}

pub(crate) fn blank_strings(n: usize) -> (v: Vec<String>)
    ensures
        blanks(v@, n as nat),
{
    let mut v: Vec<String> = Vec::new();
    for i in 0..n
        invariant
            blanks(v@, i as nat),
    {
        v.push(String::new());
    }
    v
}

/// A move call of `package::module::function` with empty type arguments
/// and arguments, one for each the function declares.
pub open spec fn blank_move_call(
    cmd: PtbCommand,
    package: String,
    module: String,
    f: ModuleFunctionDisplay,
) -> bool {
    &&& cmd matches PtbCommand::MoveCall { package: p, module: m, function: fun, type_args, args }
    &&& p == package
    &&& m == module
    &&& fun == f.name
    &&& blanks(type_args@, f.type_param_count as nat)
    &&& blanks(args@, f.param_types@.len())
}

/// A builder holding just `cmd`, on the command step, otherwise cleared.
pub open spec fn builder_with(t: TxBuilderState, cmd_ok: spec_fn(PtbCommand) -> bool, sender: usize) -> bool {
    &&& t.step == TxBuilderStep::EditCommands
    &&& t.sender == sender
    &&& t.commands@.len() == 1
    &&& cmd_ok(t.commands@[0])
    &&& t.cmd_selected == 0
    &&& t.gas_budget@ == default_gas_budget()
    &&& t.edit_field == 0
    &&& t.edit_buffers@.len() == 0
    &&& t.adding_cmd is None
    &&& t.dry_run is None
    &&& !t.dry_running
    &&& t.dry_run_dirty
    &&& !t.gas_edited
    &&& t.multi_values@.len() == 0
}

/// Keys with only the one at `idx` active.
pub open spec fn only_active(before: Seq<KeyDisplay>, after: Seq<KeyDisplay>, idx: nat) -> bool {
    after.len() == before.len() && forall|i: int|
        0 <= i < before.len() ==> #[trigger] after[i] == (KeyDisplay { is_active: i == idx, ..before[i] })
}

impl App {
    /// Jump to TxBuilder with a MoveCall pre-filled from the selected function.
    pub fn jump_to_move_call(&mut self)
        ensures
            old(self).pkg_functions_selected >= old(self).pkg_functions@.len() ==> *final(self) == *old(
                self,
            ),
            old(self).pkg_functions_selected < old(self).pkg_functions@.len() ==> {
                let f = old(self).pkg_functions@[old(self).pkg_functions_selected as int];
                &&& builder_with(
                    final(self).tx,
                    |c: PtbCommand|
                        blank_move_call(c, old(self).pkg_selected_id, old(self).pkg_selected_module, f),
                    old(self).tx.sender,
                )
                &&& *final(self) == (App {
                    tx: final(self).tx,
                    section_open: None,
                    tx_builder_open: true,
                    screen: Screen::TxBuilder,
                    input_mode: InputMode::Normal,
                    popup: None,
                    ..*old(self)
                })
            },
    {
        if self.pkg_functions_selected >= self.pkg_functions.len() {
            return;
        }
        let cmd = self.selected_move_call();
        self.tx.reset();
        self.tx.commands.push(cmd);
        self.tx.step = TxBuilderStep::EditCommands;
        self.section_open = None;
        self.tx_builder_open = true;
        self.screen = Screen::TxBuilder;
        self.input_mode = InputMode::Normal;
        self.popup = None;
    }

    /// The move call for the selected function of the browsed module.
    fn selected_move_call(&self) -> (cmd: PtbCommand)
        requires
            self.pkg_functions_selected < self.pkg_functions@.len(),
        ensures
            blank_move_call(
                cmd,
                self.pkg_selected_id,
                self.pkg_selected_module,
                self.pkg_functions@[self.pkg_functions_selected as int],
            ),
    {
        let func = &self.pkg_functions[self.pkg_functions_selected];
        PtbCommand::MoveCall {
            package: self.pkg_selected_id.clone(),
            module: self.pkg_selected_module.clone(),
            function: func.name.clone(),
            type_args: blank_strings(func.type_param_count),
            args: blank_strings(func.param_types.len()),
        }
    }

    /// The address of entry `i` of the combined address book (keys first).
    pub open spec fn combined_address(&self, i: int) -> Option<String> {
        if 0 <= i < self.keys@.len() {
            Some(self.keys@[i].address)
        } else if self.keys@.len() <= i < self.keys@.len() + self.address_book@.len() {
            Some(self.address_book@[i - self.keys@.len()].address)
        } else {
            None
        }
    }

    /// Activate the currently selected address book entry (explore it).
    pub fn activate_selected_address(&mut self)
        ensures
            match old(self).combined_address(old(self).address_selected as int) {
                Some(a) => final(self).explored(old(self), a),
                None => *final(self) == *old(self),
            },
    {
        let combined = self.combined_address_book();
        if self.address_selected < combined.len() {
            proof {
                let i = self.address_selected as int;
                if i >= self.keys@.len() {
                    assert(combined@[i] == combined@.skip(self.keys@.len() as int)[i
                        - self.keys@.len()]);
                }
            }
            let addr = combined[self.address_selected].address.clone();
            self.explore_item(addr);
        }
    }

    /// Activate the currently selected key (set it as active): it alone is
    /// marked active, the backend is told, and the data refreshed.
    pub fn activate_selected_key(&mut self)
        ensures
            old(self).keys_selected >= old(self).keys@.len() ==> *final(self) == *old(self),
            old(self).keys_selected < old(self).keys@.len() ==> exists|mid: App|
                {
                    &&& only_active(old(self).keys@, mid.keys@, old(self).keys_selected as nat)
                    &&& mid.outbox@ == old(self).outbox@.push(
                        WalletCmd::SetActiveKey(old(self).keys_selected),
                    )
                    &&& mid == (App { keys: mid.keys, outbox: mid.outbox, ..*old(self) })
                    &&& #[trigger] final(self).refreshed(&mid)
                },
    {
        let idx = self.keys_selected;
        if idx >= self.keys.len() {
            return;
        }
        self.set_only_active(idx);
        self.send_cmd(WalletCmd::SetActiveKey(idx));
        let ghost mid = *self;
        self.request_refresh();
        assert(self.refreshed(&mid));
    }

    fn set_only_active(&mut self, idx: usize)
        ensures
            only_active(old(self).keys@, final(self).keys@, idx as nat),
            *final(self) == (App { keys: final(self).keys, ..*old(self) }),
    {
        let ghost before = self.keys@;
        let mut keys: Vec<KeyDisplay> = Vec::new();
        std::mem::swap(&mut keys, &mut self.keys);
        assert(keys@ == before);
        let n = keys.len();
        for i in 0..n
            invariant
                n == before.len(),
                keys@.len() == before.len(),
                forall|j: int|
                    0 <= j < before.len() ==> #[trigger] keys@[j] == if j < i {
                        KeyDisplay { is_active: j == idx, ..before[j] }
                    } else {
                        before[j]
                    },
        {
            let mut k = keys[i].clone();
            k.is_active = i == idx;
            keys.set(i, k);
        }
        self.keys = keys;
    }
}

} // verus!
