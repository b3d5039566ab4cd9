//! Transaction builder state: the wizard step, the command list, the gas
//! budget and the form used to add a command.

use vstd::prelude::*;
use crate::formatting::{parse_iota_amount, spec_parse_iota_amount};
use crate::text::owned;
use crate::types::{AddCommandType, DryRunInfo, PtbCommand, TxBuilderStep};

verus! {

/// All transaction-builder-related state, grouped into a single sub-struct.
pub struct TxBuilderState {
    pub step: TxBuilderStep,
    pub sender: usize,
    pub commands: Vec<PtbCommand>,
    pub cmd_selected: usize,
    pub gas_budget: String,
    pub edit_field: usize,
    pub edit_buffers: Vec<String>,
    pub adding_cmd: Option<AddCommandType>,
    pub dry_run: Option<DryRunInfo>,
    pub dry_running: bool,
    pub dry_run_dirty: bool,
    pub gas_edited: bool,
    pub multi_values: Vec<String>,
}

/// The gas budget a new transaction starts with, in nanos.
pub open spec fn default_gas_budget() -> Seq<char> {
    "10000000"@
}

/// Nanos moved by the `TransferIota` commands (amounts that do not parse
/// count as nothing).
pub open spec fn transfer_total(cmds: Seq<PtbCommand>) -> nat
    decreases cmds.len(),
{
    if cmds.len() == 0 {
        0
    } else {
        transfer_total(cmds.drop_last()) + match cmds.last() {
            PtbCommand::TransferIota { amount, .. } => match spec_parse_iota_amount(amount@) {
                Some(n) => n as nat,
                None => 0,
            },
            _ => 0,
        }
    }
}

/// Nanos one command moves by itself: a `TransferIota`'s parsed amount,
/// nothing for anything else (or an amount that does not parse).
pub open spec fn command_nanos(c: PtbCommand) -> nat {
    match c {
        PtbCommand::TransferIota { amount, .. } => match spec_parse_iota_amount(amount@) {
            Some(n) => n as nat,
            None => 0,
        },
        _ => 0,
    }
}

/// The transfer total adds up: the total of two command lists one after
/// the other is the sum of their totals.
pub proof fn lemma_transfer_total_additive(a: Seq<PtbCommand>, b: Seq<PtbCommand>)
    ensures
        transfer_total(a + b) == transfer_total(a) + transfer_total(b),
    decreases b.len(),
{
    if b.len() == 0 {
        assert(a + b =~= a);
    } else {
        assert((a + b).drop_last() =~= a + b.drop_last());
        lemma_transfer_total_additive(a, b.drop_last());
    }
}

/// A single command's share of the total is what it moves by itself, and
/// an empty list moves nothing.
pub proof fn lemma_transfer_total_single(c: PtbCommand)
    ensures
        transfer_total(seq![c]) == command_nanos(c),
        transfer_total(Seq::<PtbCommand>::empty()) == 0,
{
    let s = seq![c];
    assert(s.drop_last() =~= Seq::<PtbCommand>::empty());
    assert(s.last() == c);
    assert(transfer_total(s.drop_last()) == 0);
}

/// So the total is the sum over the commands: appending a command adds
/// what it moves.
pub proof fn lemma_transfer_total_push(a: Seq<PtbCommand>, c: PtbCommand)
    ensures
        transfer_total(a.push(c)) == transfer_total(a) + command_nanos(c),
{
    lemma_transfer_total_additive(a, seq![c]);
    lemma_transfer_total_single(c);
    assert(a + seq![c] =~= a.push(c));
}

impl TxBuilderState {
    /// Everything but the sender is as in a fresh builder.
    pub open spec fn is_reset(&self) -> bool {
        &&& self.step == TxBuilderStep::SelectSender
        &&& self.commands@.len() == 0
        &&& self.cmd_selected == 0
        &&& self.gas_budget@ == default_gas_budget()
        &&& self.edit_field == 0
        &&& self.edit_buffers@.len() == 0
        &&& self.adding_cmd is None
        &&& self.dry_run is None
        &&& !self.dry_running
        &&& self.dry_run_dirty
        &&& !self.gas_edited
        &&& self.multi_values@.len() == 0
    }

    /// Clear the builder for a new transaction (the sender is kept).
    pub fn reset(&mut self)
        ensures
            final(self).is_reset(),
            final(self).sender == old(self).sender,
    {
        self.step = TxBuilderStep::SelectSender;
        self.commands.clear();
        self.cmd_selected = 0;
        self.gas_budget = owned("10000000");
        self.edit_field = 0;
        self.edit_buffers = Vec::new();
        self.adding_cmd = None;
        self.multi_values.clear();
        self.dry_run = None;
        self.dry_running = false;
        self.dry_run_dirty = true;
        self.gas_edited = false;
    }

    /// Calculate total IOTA nanos being transferred by all TransferIota commands.
    pub fn total_transfer_nanos(&self) -> (n: u64)
        requires
            transfer_total(self.commands@) <= u64::MAX,
        ensures
            n as nat == transfer_total(self.commands@),
    {
        let mut total: u64 = 0;
        let ghost cs = self.commands@;
        assert(cs.take(0) =~= Seq::<PtbCommand>::empty());
        for i in 0..self.commands.len()
            invariant
                cs == self.commands@,
                transfer_total(cs) <= u64::MAX,
                total as nat == transfer_total(cs.take(i as int)),
        {
            proof {
                assert(cs.take(i + 1).drop_last() =~= cs.take(i as int));
                lemma_transfer_total_mono(cs, i + 1);
            }
            match &self.commands[i] {
                PtbCommand::TransferIota { amount, .. } => {
                    match parse_iota_amount(amount.as_str()) {
                        Some(n) => {
                            total = total + n;
                        },
                        None => {},
                    }
                },
                _ => {},
            }
        }
        assert(cs.take(cs.len() as int) =~= cs);
        total
    }

    pub open spec fn spec_is_address_field(&self) -> bool {
        match self.adding_cmd {
            Some(AddCommandType::TransferIota) => self.edit_field == 0,
            Some(AddCommandType::TransferObjects) => self.edit_field == 0,
            Some(AddCommandType::Stake) => self.edit_field == 1,
            _ => false,
        }
    }

    /// Returns true if the current form field accepts an address (alias-completable).
    pub fn is_address_field(&self) -> (b: bool)
        ensures
            b == self.spec_is_address_field(),
    {
        match self.adding_cmd {
            Some(AddCommandType::TransferIota) => self.edit_field == 0,
            Some(AddCommandType::TransferObjects) => self.edit_field == 0,
            Some(AddCommandType::Stake) => self.edit_field == 1,
            _ => false,
        }
    }

    pub open spec fn spec_is_object_field(&self) -> bool {
        match self.adding_cmd {
            Some(AddCommandType::TransferObjects) => self.edit_field == 1,
            Some(AddCommandType::SplitCoins) => self.edit_field == 0,
            Some(AddCommandType::MergeCoins) => self.edit_field == 0 || self.edit_field == 1,
            Some(AddCommandType::Unstake) => self.edit_field == 0,
            _ => false,
        }
    }

    /// Returns true if the current form field accepts an object ID.
    pub fn is_object_field(&self) -> (b: bool)
        ensures
            b == self.spec_is_object_field(),
    {
        match self.adding_cmd {
            Some(AddCommandType::TransferObjects) => self.edit_field == 1,
            Some(AddCommandType::SplitCoins) => self.edit_field == 0,
            Some(AddCommandType::MergeCoins) => self.edit_field == 0 || self.edit_field == 1,
            Some(AddCommandType::Unstake) => self.edit_field == 0,
            _ => false,
        }
    }

    pub open spec fn spec_is_coin_field(&self) -> bool {
        match self.adding_cmd {
            Some(AddCommandType::SplitCoins) => self.edit_field == 0,
            Some(AddCommandType::MergeCoins) => self.edit_field == 0 || self.edit_field == 1,
            _ => false,
        }
    }

    /// Returns true if the current object field should suggest coins specifically.
    pub fn is_coin_field(&self) -> (b: bool)
        ensures
            b == self.spec_is_coin_field(),
    {
        match self.adding_cmd {
            Some(AddCommandType::SplitCoins) => self.edit_field == 0,
            Some(AddCommandType::MergeCoins) => self.edit_field == 0 || self.edit_field == 1,
            _ => false,
        }
    }

    pub open spec fn spec_is_multi_value_field(&self) -> bool {
        match self.adding_cmd {
            Some(AddCommandType::TransferObjects) => self.edit_field == 1,
            Some(AddCommandType::SplitCoins) => self.edit_field == 1,
            Some(AddCommandType::MergeCoins) => self.edit_field == 1,
            _ => false,
        }
    }

    /// Returns true if the current field accepts multiple values (added one at a time).
    pub fn is_multi_value_field(&self) -> (b: bool)
        ensures
            b == self.spec_is_multi_value_field(),
    {
        match self.adding_cmd {
            Some(AddCommandType::TransferObjects) => self.edit_field == 1,
            Some(AddCommandType::SplitCoins) => self.edit_field == 1,
            Some(AddCommandType::MergeCoins) => self.edit_field == 1,
            _ => false,
        }
    }
}

/// The totals of the prefixes of a command list grow with the prefix.
pub proof fn lemma_transfer_total_mono(cs: Seq<PtbCommand>, i: int)
    requires
        0 <= i <= cs.len(),
    ensures
        transfer_total(cs.take(i)) <= transfer_total(cs),
    decreases cs.len() - i,
{
    if i < cs.len() {
        lemma_transfer_total_mono(cs, i + 1);
        assert(cs.take(i + 1).drop_last() =~= cs.take(i));
    } else {
        assert(cs.take(i) =~= cs);
    }
}

/// A coin field is an object field; the form fields that take an address
/// never take an object.
pub proof fn lemma_field_kinds(t: TxBuilderState)
    ensures
        t.spec_is_coin_field() ==> t.spec_is_object_field(),
        !(t.spec_is_address_field() && t.spec_is_object_field()),
        t.adding_cmd is None ==> !t.spec_is_address_field() && !t.spec_is_object_field()
            && !t.spec_is_multi_value_field(),
{
}

impl Default for TxBuilderState {
    fn default() -> (r: Self)
        ensures
            r.is_reset(),
            r.sender == 0,
    {
        TxBuilderState {
            step: TxBuilderStep::SelectSender,
            sender: 0,
            commands: Vec::new(),
            cmd_selected: 0,
            gas_budget: owned("10000000"),
            edit_field: 0,
            edit_buffers: Vec::new(),
            adding_cmd: None,
            dry_run: None,
            dry_running: false,
            dry_run_dirty: true,
            gas_edited: false,
            multi_values: Vec::new(),
        }
    }
}

} // verus!
