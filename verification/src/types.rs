//! Display types, enums, and data structures used across the wallet views.

use vstd::prelude::*;
use crate::text::{
    byte_len, byte_prefix, byte_suffix, chars_of, dec, fits_in_bytes, is_boundary,
    prefix_for_bytes, push_chars, push_dec, push_str, sub_chars, suffix_for_bytes,
};

verus! {

// ── Grid sections (the box grid on the main view) ─────────────────

/// A section in the main box grid view.
#[derive(Debug, Clone, Copy, PartialEq, Eq, Hash, Structural)]
pub enum Section {
    Coins,
    Objects,
    Staking,
    Transactions,
    Packages,
}

impl Section {
    pub open spec fn spec_title(self) -> Seq<char> {
        match self {
            Section::Coins => "Coins"@,
            Section::Objects => "Objects"@,
            Section::Staking => "Staking"@,
            Section::Transactions => "Transactions"@,
            Section::Packages => "Packages"@,
        }
    }

    pub fn title(self) -> (r: &'static str)
        ensures
            r@ == self.spec_title(),
    {
        match self {
            Section::Coins => "Coins",
            Section::Objects => "Objects",
            Section::Staking => "Staking",
            Section::Transactions => "Transactions",
            Section::Packages => "Packages",
        }
    }

    pub open spec fn spec_to_screen(self) -> Screen {
        match self {
            Section::Coins => Screen::Coins,
            Section::Objects => Screen::Objects,
            Section::Staking => Screen::Staking,
            Section::Transactions => Screen::Transactions,
            Section::Packages => Screen::Packages,
        }
    }

    /// Map a section to the Screen variant used for full overlay rendering.
    pub fn to_screen(self) -> (r: Screen)
        ensures
            r == self.spec_to_screen(),
    {
        match self {
            Section::Coins => Screen::Coins,
            Section::Objects => Screen::Objects,
            Section::Staking => Screen::Staking,
            Section::Transactions => Screen::Transactions,
            Section::Packages => Screen::Packages,
        }
    }
}

// ── Context menu ──────────────────────────────────────────────────

/// An action available in the context menu.
#[derive(Debug, Clone, Copy, PartialEq, Eq, Structural)]
pub enum ContextAction {
    Send,
    Merge,
    Split,
    Transfer,
    Unstake,
    CopyId,
    Explore,
    ExplorePackage,
    ViewDetails,
    CopyDigest,
}

impl ContextAction {
    pub open spec fn spec_label(self) -> Seq<char> {
        match self {
            ContextAction::Send => "Send"@,
            ContextAction::Merge => "Merge"@,
            ContextAction::Split => "Split"@,
            ContextAction::Transfer => "Transfer"@,
            ContextAction::Unstake => "Unstake"@,
            ContextAction::CopyId => "Copy ID"@,
            ContextAction::Explore => "Explore"@,
            ContextAction::ExplorePackage => "Explore Package"@,
            ContextAction::ViewDetails => "View Details"@,
            ContextAction::CopyDigest => "Copy Digest"@,
        }
    }

    pub fn label(self) -> (r: &'static str)
        ensures
            r@ == self.spec_label(),
    {
        match self {
            ContextAction::Send => "Send",
            ContextAction::Merge => "Merge",
            ContextAction::Split => "Split",
            ContextAction::Transfer => "Transfer",
            ContextAction::Unstake => "Unstake",
            ContextAction::CopyId => "Copy ID",
            ContextAction::Explore => "Explore",
            ContextAction::ExplorePackage => "Explore Package",
            ContextAction::ViewDetails => "View Details",
            ContextAction::CopyDigest => "Copy Digest",
        }
    }

    pub open spec fn spec_shortcut(self) -> char {
        match self {
            ContextAction::Send => 's',
            ContextAction::Merge => 'm',
            ContextAction::Split => 'p',
            ContextAction::Transfer => 't',
            ContextAction::Unstake => 'u',
            ContextAction::CopyId => 'c',
            ContextAction::Explore => 'e',
            ContextAction::ExplorePackage => 'e',
            ContextAction::ViewDetails => 'v',
            ContextAction::CopyDigest => 'c',
        }
    }

    /// Shortcut character for quick selection in the menu.
    pub fn shortcut(self) -> (r: char)
        ensures
            r == self.spec_shortcut(),
    {
        match self {
            ContextAction::Send => 's',
            ContextAction::Merge => 'm',
            ContextAction::Split => 'p',
            ContextAction::Transfer => 't',
            ContextAction::Unstake => 'u',
            ContextAction::CopyId => 'c',
            ContextAction::Explore => 'e',
            ContextAction::ExplorePackage => 'e',
            ContextAction::ViewDetails => 'v',
            ContextAction::CopyDigest => 'c',
        }
    }
}

/// A character with ASCII capitals folded to lower case.
pub open spec fn ascii_lower(c: char) -> char {
    if 'A' <= c <= 'Z' {
        ((c as u32) + 32) as char
    } else {
        c
    }
}

/// Each action's shortcut is a lower-case ASCII letter that its label
/// shows, in either case.
pub proof fn lemma_shortcut_in_label(a: ContextAction)
    ensures
        'a' <= a.spec_shortcut() <= 'z',
        exists|i: int|
            0 <= i < a.spec_label().len() && ascii_lower(#[trigger] a.spec_label()[i])
                == a.spec_shortcut(),
{
    match a {
        ContextAction::Send => {
            reveal_strlit("Send");
            assert(ascii_lower(a.spec_label()[0]) == 's');
        },
        ContextAction::Merge => {
            reveal_strlit("Merge");
            assert(ascii_lower(a.spec_label()[0]) == 'm');
        },
        ContextAction::Split => {
            reveal_strlit("Split");
            assert(ascii_lower(a.spec_label()[1]) == 'p');
        },
        ContextAction::Transfer => {
            reveal_strlit("Transfer");
            assert(ascii_lower(a.spec_label()[0]) == 't');
        },
        ContextAction::Unstake => {
            reveal_strlit("Unstake");
            assert(ascii_lower(a.spec_label()[0]) == 'u');
        },
        ContextAction::CopyId => {
            reveal_strlit("Copy ID");
            assert(ascii_lower(a.spec_label()[0]) == 'c');
        },
        ContextAction::Explore => {
            reveal_strlit("Explore");
            assert(ascii_lower(a.spec_label()[0]) == 'e');
        },
        ContextAction::ExplorePackage => {
            reveal_strlit("Explore Package");
            assert(ascii_lower(a.spec_label()[0]) == 'e');
        },
        ContextAction::ViewDetails => {
            reveal_strlit("View Details");
            assert(ascii_lower(a.spec_label()[0]) == 'v');
        },
        ContextAction::CopyDigest => {
            reveal_strlit("Copy Digest");
            assert(ascii_lower(a.spec_label()[0]) == 'c');
        },
    }
}

/// The context menu actions of a section: own items get the actions that
/// change them first, then the read-only ones.
pub open spec fn spec_actions_for(section: Section, is_own: bool) -> Seq<ContextAction> {
    match section {
        Section::Coins => if is_own {
            seq![
                ContextAction::Send,
                ContextAction::Merge,
                ContextAction::Split,
                ContextAction::CopyId,
                ContextAction::Explore,
            ]
        } else {
            seq![ContextAction::CopyId, ContextAction::Explore]
        },
        Section::Objects => if is_own {
            seq![ContextAction::Transfer, ContextAction::CopyId, ContextAction::Explore]
        } else {
            seq![ContextAction::CopyId, ContextAction::Explore]
        },
        Section::Staking => if is_own {
            seq![ContextAction::Unstake, ContextAction::CopyId]
        } else {
            seq![ContextAction::CopyId]
        },
        Section::Transactions => seq![ContextAction::ViewDetails, ContextAction::CopyDigest],
        Section::Packages => seq![ContextAction::ExplorePackage, ContextAction::CopyId],
    }
}

/// The actions that move or change one's holdings.
pub open spec fn changes_holdings(a: ContextAction) -> bool {
    a == ContextAction::Send || a == ContextAction::Merge || a == ContextAction::Split || a
        == ContextAction::Transfer || a == ContextAction::Unstake
}

/// The context menu on someone else's items is the one on one's own, in
/// the same order, with exactly the actions that move or change holdings
/// (send, merge, split, transfer, unstake) left out.
pub proof fn lemma_others_actions_drop_holding_changes(s: Section)
    ensures
        spec_actions_for(s, false) == spec_actions_for(s, true).filter(
            |a: ContextAction| !changes_holdings(a),
        ),
        forall|i: int|
            0 <= i < spec_actions_for(s, false).len() ==> !changes_holdings(
                #[trigger] spec_actions_for(s, false)[i],
            ),
{
    let f = |a: ContextAction| !changes_holdings(a);
    let own = spec_actions_for(s, true);
    reveal_with_fuel(Seq::<ContextAction>::filter, 6);
    assert(own.filter(f) =~= spec_actions_for(s, false));
}

/// Returns the context menu actions available for a given section.
pub fn actions_for(section: Section, is_own: bool) -> (r: Vec<ContextAction>)
    ensures
        r@ == spec_actions_for(section, is_own),
{
    let mut actions: Vec<ContextAction> = Vec::new();
    match section {
        Section::Coins => {
            if is_own {
                actions.push(ContextAction::Send);
                actions.push(ContextAction::Merge);
                actions.push(ContextAction::Split);
            }
            actions.push(ContextAction::CopyId);
            actions.push(ContextAction::Explore);
        },
        Section::Objects => {
            if is_own {
                actions.push(ContextAction::Transfer);
            }
            actions.push(ContextAction::CopyId);
            actions.push(ContextAction::Explore);
        },
        Section::Staking => {
            if is_own {
                actions.push(ContextAction::Unstake);
            }
            actions.push(ContextAction::CopyId);
        },
        Section::Transactions => {
            actions.push(ContextAction::ViewDetails);
            actions.push(ContextAction::CopyDigest);
        },
        Section::Packages => {
            actions.push(ContextAction::ExplorePackage);
            actions.push(ContextAction::CopyId);
        },
    }
    assert(actions@ =~= spec_actions_for(section, is_own));
    actions
}

/// State of an active context menu.
#[derive(Debug, Clone)]
pub struct ContextMenu {
    pub section: Section,
    pub actions: Vec<ContextAction>,
    pub selected: usize,
    pub anchor_row: u16,
    pub anchor_col: u16,
}

// ── Settings popup tabs ───────────────────────────────────────────

/// Which sub-tab is active in the Settings popup.
#[derive(Debug, Clone, Copy, PartialEq, Eq, Structural)]
pub enum SettingsTab {
    Keys,
    AddressBook,
    Network,
}

impl SettingsTab {
    pub open spec fn spec_title(self) -> Seq<char> {
        match self {
            SettingsTab::Keys => "Keys"@,
            SettingsTab::AddressBook => "Address Book"@,
            SettingsTab::Network => "Network"@,
        }
    }

    pub fn title(self) -> (r: &'static str)
        ensures
            r@ == self.spec_title(),
    {
        match self {
            SettingsTab::Keys => "Keys",
            SettingsTab::AddressBook => "Address Book",
            SettingsTab::Network => "Network",
        }
    }

    pub open spec fn spec_next(self) -> Self {
        match self {
            SettingsTab::Keys => SettingsTab::AddressBook,
            SettingsTab::AddressBook => SettingsTab::Network,
            SettingsTab::Network => SettingsTab::Keys,
        }
    }

    pub open spec fn spec_prev(self) -> Self {
        match self {
            SettingsTab::Keys => SettingsTab::Network,
            SettingsTab::AddressBook => SettingsTab::Keys,
            SettingsTab::Network => SettingsTab::AddressBook,
        }
    }

    /// The tab to the right, wrapping around to the first.
    pub fn next(self) -> (r: Self)
        ensures
            r == self.spec_next(),
    {
        match self {
            SettingsTab::Keys => SettingsTab::AddressBook,
            SettingsTab::AddressBook => SettingsTab::Network,
            SettingsTab::Network => SettingsTab::Keys,
        }
    }

    /// The tab to the left, wrapping around to the last.
    pub fn prev(self) -> (r: Self)
        ensures
            r == self.spec_prev(),
    {
        match self {
            SettingsTab::Keys => SettingsTab::Network,
            SettingsTab::AddressBook => SettingsTab::Keys,
            SettingsTab::Network => SettingsTab::AddressBook,
        }
    }
}

/// Tab switching in the Settings popup goes round: `prev` undoes `next`,
/// `next` undoes `prev`, and three steps in one direction come back.
pub proof fn lemma_settings_tab_cycle(t: SettingsTab)
    ensures
        t.spec_next().spec_prev() == t,
        t.spec_prev().spec_next() == t,
        t.spec_next().spec_next().spec_next() == t,
        t.spec_next() != t,
{
}

// ── Screens ───────────────────────────────────────────────────────

/// Which screen is shown inside a section overlay.
#[derive(Debug, Clone, Copy, PartialEq, Eq, Structural)]
pub enum Screen {
    Coins,
    Objects,
    Transactions,
    Staking,
    Packages,
    AddressBook,
    Keys,
    TxBuilder,
    Explorer,
}

impl Screen {
    pub open spec fn spec_title(self) -> Seq<char> {
        match self {
            Screen::Coins => "Coins"@,
            Screen::Objects => "Objects"@,
            Screen::Transactions => "Transactions"@,
            Screen::Staking => "Staking"@,
            Screen::Packages => "Packages"@,
            Screen::AddressBook => "Address Book"@,
            Screen::Keys => "Keys"@,
            Screen::TxBuilder => "Tx Builder"@,
            Screen::Explorer => "Explorer"@,
        }
    }

    /// Position among all screens, in declaration order.
    pub open spec fn spec_index(self) -> nat {
        match self {
            Screen::Coins => 0,
            Screen::Objects => 1,
            Screen::Transactions => 2,
            Screen::Staking => 3,
            Screen::Packages => 4,
            Screen::AddressBook => 5,
            Screen::Keys => 6,
            Screen::TxBuilder => 7,
            Screen::Explorer => 8,
        }
    }

    pub fn index(self) -> (r: usize)
        ensures
            r == self.spec_index(),
    {
        match self {
            Screen::Coins => 0,
            Screen::Objects => 1,
            Screen::Transactions => 2,
            Screen::Staking => 3,
            Screen::Packages => 4,
            Screen::AddressBook => 5,
            Screen::Keys => 6,
            Screen::TxBuilder => 7,
            Screen::Explorer => 8,
        }
    }

    pub fn title(self) -> (r: &'static str)
        ensures
            r@ == self.spec_title(),
    {
        match self {
            Screen::Coins => "Coins",
            Screen::Objects => "Objects",
            Screen::Transactions => "Transactions",
            Screen::Staking => "Staking",
            Screen::Packages => "Packages",
            Screen::AddressBook => "Address Book",
            Screen::Keys => "Keys",
            Screen::TxBuilder => "Tx Builder",
            Screen::Explorer => "Explorer",
        }
    }
}

// ── Display types (what the views render) ──────────────────────────

/// A coin balance row displayed in the Coins view.
#[derive(Debug)]
pub struct CoinDisplay {
    pub coin_type: String,
    pub symbol: String,
    pub balance: u128,
    pub balance_display: String,
    pub object_id: String,
    pub owner_alias: String,
}

impl Clone for CoinDisplay {
    fn clone(&self) -> (r: Self)
        ensures
            r == *self,
    {
        CoinDisplay {
            coin_type: self.coin_type.clone(),
            symbol: self.symbol.clone(),
            balance: self.balance.clone(),
            balance_display: self.balance_display.clone(),
            object_id: self.object_id.clone(),
            owner_alias: self.owner_alias.clone(),
        }
    }
}

/// Aggregated portfolio summary row (one per coin type across all accounts).
#[derive(Debug, Clone)]
pub struct PortfolioSummary {
    pub coin_type: String,
    pub symbol: String,
    pub total_balance_display: String,
    /// (alias, balance_display)
    pub per_account: Vec<(String, String)>,
}

/// An object row displayed in the Objects view.
#[derive(Debug)]
pub struct ObjectDisplay {
    pub object_id: String,
    pub object_type: String,
    pub version: String,
    pub digest: String,
    pub owner: String,
    pub owner_alias: String,
}

impl Clone for ObjectDisplay {
    fn clone(&self) -> (r: Self)
        ensures
            r == *self,
    {
        ObjectDisplay {
            object_id: self.object_id.clone(),
            object_type: self.object_type.clone(),
            version: self.version.clone(),
            digest: self.digest.clone(),
            owner: self.owner.clone(),
            owner_alias: self.owner_alias.clone(),
        }
    }
}

/// A transaction row displayed in the Transactions view.
#[derive(Debug, Clone)]
pub struct TransactionDisplay {
    pub digest: String,
    pub status: String,
    pub gas_used: String,
    pub epoch: String,
    pub tx_kind: String,
    pub gas_computation: String,
    pub gas_storage: String,
    pub gas_rebate: String,
    pub changed_objects: usize,
}

/// A staked IOTA object displayed in the Staking view.
#[derive(Debug, Clone)]
pub struct StakeDisplay {
    pub object_id: String,
    pub principal: String,
    pub principal_display: String,
    pub validator_address: String,
    pub activation_epoch: String,
    pub status: String,
}

/// Which sub-view of the Package Browser is active.
#[derive(Debug, Clone, Copy, PartialEq, Eq, Structural)]
pub enum PackageBrowserView {
    List,
    Modules,
    Functions,
}

/// A module within a published package.
#[derive(Debug, Clone)]
pub struct PackageModuleDisplay {
    pub name: String,
    pub function_count: usize,
    pub struct_count: usize,
}

/// A function within a module.
#[derive(Debug, Clone)]
pub struct ModuleFunctionDisplay {
    pub name: String,
    pub visibility: String,
    pub is_entry: bool,
    pub type_param_count: usize,
    pub param_types: Vec<String>,
    pub return_types: Vec<String>,
}

/// Result of a dry-run simulation for the transaction builder.
#[derive(Debug, Clone)]
pub struct DryRunInfo {
    pub status: String,
    pub estimated_gas: Option<u64>,
    pub error: Option<String>,
}

/// A saved entry in the address book.
#[derive(Debug)]
pub struct AddressEntry {
    pub label: String,
    pub address: String,
    pub notes: String,
}

impl Clone for AddressEntry {
    fn clone(&self) -> (r: Self)
        ensures
            r == *self,
    {
        AddressEntry {
            label: self.label.clone(),
            address: self.address.clone(),
            notes: self.notes.clone(),
        }
    }
}

/// A key displayed in the Keys view.
#[derive(Debug)]
pub struct KeyDisplay {
    pub alias: String,
    pub address: String,
    pub scheme: String,
    pub is_active: bool,
    pub visible: bool,
    pub private_key_hex: String,
}

impl Clone for KeyDisplay {
    fn clone(&self) -> (r: Self)
        ensures
            r == *self,
    {
        KeyDisplay {
            alias: self.alias.clone(),
            address: self.address.clone(),
            scheme: self.scheme.clone(),
            is_active: self.is_active.clone(),
            visible: self.visible.clone(),
            private_key_hex: self.private_key_hex.clone(),
        }
    }
}

// ── Transaction builder ───────────────────────────────────────────

/// Steps in the transaction builder wizard.
#[derive(Debug, Clone, Copy, PartialEq, Eq, Structural)]
pub enum TxBuilderStep {
    SelectSender,
    EditCommands,
    SetGas,
    Review,
}

impl TxBuilderStep {
    pub open spec fn spec_title(self) -> Seq<char> {
        match self {
            TxBuilderStep::SelectSender => "Sender"@,
            TxBuilderStep::EditCommands => "Commands"@,
            TxBuilderStep::SetGas => "Gas"@,
            TxBuilderStep::Review => "Review"@,
        }
    }

    pub fn title(self) -> (r: &'static str)
        ensures
            r@ == self.spec_title(),
    {
        match self {
            TxBuilderStep::SelectSender => "Sender",
            TxBuilderStep::EditCommands => "Commands",
            TxBuilderStep::SetGas => "Gas",
            TxBuilderStep::Review => "Review",
        }
    }
}

/// `truncate_id`: short ids unchanged; longer ones keep `max / 2` bytes
/// from each end with `..` between.
pub open spec fn spec_truncate_id(s: Seq<char>, max: nat) -> Seq<char> {
    if byte_len(s) <= max {
        s
    } else {
        byte_prefix(s, max / 2) + ".."@ + byte_suffix(s, max / 2)
    }
}

/// The byte offsets `truncate_id` cuts at fall between characters.
pub open spec fn truncate_id_ok(s: Seq<char>, max: nat) -> bool {
    byte_len(s) <= max || (is_boundary(s, max / 2) && byte_len(byte_suffix(s, max / 2)) == max
        / 2)
}

/// Appends `truncate_id(s, max)` to `out`.
fn push_truncated_id(out: &mut String, s: &str, max: usize)
    requires
        truncate_id_ok(s@, max as nat),
    ensures
        final(out)@ == old(out)@ + spec_truncate_id(s@, max as nat),
{
    let v = chars_of(s);
    if fits_in_bytes(&v, max) {
        push_chars(out, &v);
    } else {
        let (i, _) = prefix_for_bytes(&v, max / 2);
        let (j, _) = suffix_for_bytes(&v, max / 2);
        let head = sub_chars(&v, 0, i);
        let tail = sub_chars(&v, j, v.len());
        assert(head@ =~= v@.take(i as int));
        assert(tail@ =~= v@.skip(j as int));
        let ghost start = out@;
        push_chars(out, &head);
        push_str(out, "..");
        push_chars(out, &tail);
        assert(out@ =~= start + spec_truncate_id(s@, max as nat));
    }
}

/// Shorten an id for display, keeping both ends.
pub fn truncate_id(s: &str, max: usize) -> (r: String)
    requires
        truncate_id_ok(s@, max as nat),
    ensures
        r@ == spec_truncate_id(s@, max as nat),
{
    let mut out = String::new();
    push_truncated_id(&mut out, s, max);
    assert(out@ =~= spec_truncate_id(s@, max as nat));
    out
}

/// A visual PTB command in the transaction builder.
#[derive(Debug, Clone)]
pub enum PtbCommand {
    TransferIota { recipient: String, amount: String },
    TransferObjects { recipient: String, object_ids: Vec<String> },
    MoveCall {
        package: String,
        module: String,
        function: String,
        type_args: Vec<String>,
        args: Vec<String>,
    },
    SplitCoins { coin: String, amounts: Vec<String> },
    MergeCoins { primary: String, sources: Vec<String> },
    Stake { amount: String, validator: String },
    Unstake { staked_iota_id: String },
}

impl PtbCommand {
    pub open spec fn spec_label(&self) -> Seq<char> {
        match self {
            PtbCommand::TransferIota { .. } => "TransferIota"@,
            PtbCommand::TransferObjects { .. } => "TransferObjects"@,
            PtbCommand::MoveCall { .. } => "MoveCall"@,
            PtbCommand::SplitCoins { .. } => "SplitCoins"@,
            PtbCommand::MergeCoins { .. } => "MergeCoins"@,
            PtbCommand::Stake { .. } => "Stake"@,
            PtbCommand::Unstake { .. } => "Unstake"@,
        }
    }

    pub fn label(&self) -> (r: &'static str)
        ensures
            r@ == self.spec_label(),
    {
        match self {
            PtbCommand::TransferIota { .. } => "TransferIota",
            PtbCommand::TransferObjects { .. } => "TransferObjects",
            PtbCommand::MoveCall { .. } => "MoveCall",
            PtbCommand::SplitCoins { .. } => "SplitCoins",
            PtbCommand::MergeCoins { .. } => "MergeCoins",
            PtbCommand::Stake { .. } => "Stake",
            PtbCommand::Unstake { .. } => "Unstake",
        }
    }

    /// Same command with the same arguments.
    pub open spec fn spec_eqv(&self, o: &PtbCommand) -> bool {
        match (self, o) {
            (
                PtbCommand::TransferIota { recipient: a, amount: b },
                PtbCommand::TransferIota { recipient: c, amount: d },
            ) => a@ == c@ && b@ == d@,
            (
                PtbCommand::TransferObjects { recipient: a, object_ids: b },
                PtbCommand::TransferObjects { recipient: c, object_ids: d },
            ) => a@ == c@ && b@ == d@,
            (
                PtbCommand::MoveCall { package: a, module: b, function: c, type_args: d, args: e },
                PtbCommand::MoveCall { package: f, module: g, function: h, type_args: i, args: j },
            ) => a@ == f@ && b@ == g@ && c@ == h@ && d@ == i@ && e@ == j@,
            (
                PtbCommand::SplitCoins { coin: a, amounts: b },
                PtbCommand::SplitCoins { coin: c, amounts: d },
            ) => a@ == c@ && b@ == d@,
            (
                PtbCommand::MergeCoins { primary: a, sources: b },
                PtbCommand::MergeCoins { primary: c, sources: d },
            ) => a@ == c@ && b@ == d@,
            (
                PtbCommand::Stake { amount: a, validator: b },
                PtbCommand::Stake { amount: c, validator: d },
            ) => a@ == c@ && b@ == d@,
            (
                PtbCommand::Unstake { staked_iota_id: a },
                PtbCommand::Unstake { staked_iota_id: b },
            ) => a@ == b@,
            _ => false,
        }
    }

    /// The ids that `summary` shortens can be cut where it cuts them.
    pub open spec fn summary_ok(&self) -> bool {
        match self {
            PtbCommand::TransferIota { recipient, .. } => truncate_id_ok(recipient@, 16),
            PtbCommand::TransferObjects { recipient, .. } => truncate_id_ok(recipient@, 16),
            PtbCommand::MoveCall { package, .. } => truncate_id_ok(package@, 8),
            PtbCommand::SplitCoins { coin, .. } => truncate_id_ok(coin@, 12),
            PtbCommand::MergeCoins { primary, .. } => truncate_id_ok(primary@, 12),
            PtbCommand::Stake { validator, .. } => truncate_id_ok(validator@, 16),
            PtbCommand::Unstake { staked_iota_id } => truncate_id_ok(staked_iota_id@, 20),
        }
    }

    /// One-line description of the command.
    pub open spec fn spec_summary(&self) -> Seq<char> {
        match self {
            PtbCommand::TransferIota { recipient, amount } => amount@ + " IOTA -> "@
                + spec_truncate_id(recipient@, 16),
            PtbCommand::TransferObjects { recipient, object_ids } => dec(object_ids.len() as nat)
                + " objs -> "@ + spec_truncate_id(recipient@, 16),
            PtbCommand::MoveCall { package, module, function, .. } => spec_truncate_id(
                package@,
                8,
            ) + "::"@ + module@ + "::"@ + function@,
            PtbCommand::SplitCoins { coin, amounts } => spec_truncate_id(coin@, 12) + " into "@
                + dec(amounts.len() as nat) + " parts"@,
            PtbCommand::MergeCoins { primary, sources } => spec_truncate_id(primary@, 12)
                + " + "@ + dec(sources.len() as nat) + " coins"@,
            PtbCommand::Stake { amount, validator } => amount@ + " IOTA -> "@ + spec_truncate_id(
                validator@,
                16,
            ),
            PtbCommand::Unstake { staked_iota_id } => spec_truncate_id(staked_iota_id@, 20),
        }
    }

    pub fn summary(&self) -> (r: String)
        requires
            self.summary_ok(),
        ensures
            r@ == self.spec_summary(),
    {
        let mut s = String::new();
        match self {
            PtbCommand::TransferIota { recipient, amount } => {
                push_str(&mut s, amount.as_str());
                push_str(&mut s, " IOTA -> ");
                push_truncated_id(&mut s, recipient.as_str(), 16);
            },
            PtbCommand::TransferObjects { recipient, object_ids } => {
                push_dec(&mut s, object_ids.len() as u128);
                push_str(&mut s, " objs -> ");
                push_truncated_id(&mut s, recipient.as_str(), 16);
            },
            PtbCommand::MoveCall { package, module, function, .. } => {
                push_truncated_id(&mut s, package.as_str(), 8);
                push_str(&mut s, "::");
                push_str(&mut s, module.as_str());
                push_str(&mut s, "::");
                push_str(&mut s, function.as_str());
            },
            PtbCommand::SplitCoins { coin, amounts } => {
                push_truncated_id(&mut s, coin.as_str(), 12);
                push_str(&mut s, " into ");
                push_dec(&mut s, amounts.len() as u128);
                push_str(&mut s, " parts");
            },
            PtbCommand::MergeCoins { primary, sources } => {
                push_truncated_id(&mut s, primary.as_str(), 12);
                push_str(&mut s, " + ");
                push_dec(&mut s, sources.len() as u128);
                push_str(&mut s, " coins");
            },
            PtbCommand::Stake { amount, validator } => {
                push_str(&mut s, amount.as_str());
                push_str(&mut s, " IOTA -> ");
                push_truncated_id(&mut s, validator.as_str(), 16);
            },
            PtbCommand::Unstake { staked_iota_id } => {
                push_truncated_id(&mut s, staked_iota_id.as_str(), 20);
            },
        }
        assert(s@ =~= self.spec_summary());
        s
    }
}

/// Which command type is being added in the popup.
#[derive(Debug, Clone, Copy, PartialEq, Eq, Structural)]
pub enum AddCommandType {
    TransferIota,
    TransferObjects,
    MoveCall,
    SplitCoins,
    MergeCoins,
    Stake,
    Unstake,
}

impl AddCommandType {
    pub open spec fn spec_label(self) -> Seq<char> {
        match self {
            AddCommandType::TransferIota => "Transfer IOTA"@,
            AddCommandType::TransferObjects => "Transfer Objects"@,
            AddCommandType::MoveCall => "Move Call"@,
            AddCommandType::SplitCoins => "Split Coins"@,
            AddCommandType::MergeCoins => "Merge Coins"@,
            AddCommandType::Stake => "Stake"@,
            AddCommandType::Unstake => "Unstake"@,
        }
    }

    pub fn label(self) -> (r: &'static str)
        ensures
            r@ == self.spec_label(),
    {
        match self {
            AddCommandType::TransferIota => "Transfer IOTA",
            AddCommandType::TransferObjects => "Transfer Objects",
            AddCommandType::MoveCall => "Move Call",
            AddCommandType::SplitCoins => "Split Coins",
            AddCommandType::MergeCoins => "Merge Coins",
            AddCommandType::Stake => "Stake",
            AddCommandType::Unstake => "Unstake",
        }
    }
}

/// Whether the user is in normal mode or editing a text field.
#[derive(Debug, Clone, Copy, PartialEq, Eq, Structural)]
pub enum InputMode {
    Normal,
    Editing,
}

/// Which element is focused within an input popup.
#[derive(Debug, Clone, Copy, PartialEq, Eq, Structural)]
pub enum PopupFocus {
    /// An input field is focused (typing goes to the input buffer).
    Fields,
    /// The submit/save button is focused.
    Submit,
    /// The cancel button is focused.
    Cancel,
}

/// Which popup overlay is currently shown.
#[derive(Debug, Clone, Copy, PartialEq, Eq, Structural)]
pub enum Popup {
    Help,
    AddAddress,
    EditAddress,
    GenerateKey,
    GenerateKeyAlias,
    ImportKey,
    AddCommand,
    AddCommandForm,
    RenameKey,
    SwitchNetwork,
    Detail,
    ConfirmDeleteAddress,
    ConfirmDeleteKey,
    ConfirmClearTx,
    ConfirmQuit,
    LookupIotaName,
    ErrorLog,
    ActionsMenu,
    SplitCoin,
    MergeCoin,
    QuickTransfer,
    ObjectTransfer,
    Settings,
    Welcome,
}

// ── Explorer types ─────────────────────────────────────────────────

/// Which sub-view of the Explorer is active.
#[derive(Debug, Clone, Copy, PartialEq, Eq, Structural)]
pub enum ExplorerView {
    Overview,
    Checkpoints,
    Validators,
    Lookup,
}

impl ExplorerView {
    pub open spec fn spec_index(self) -> nat {
        match self {
            ExplorerView::Overview => 0,
            ExplorerView::Checkpoints => 1,
            ExplorerView::Validators => 2,
            ExplorerView::Lookup => 3,
        }
    }

    /// All sub-views in tab order.
    pub open spec fn spec_all() -> Seq<ExplorerView> {
        seq![
            ExplorerView::Overview,
            ExplorerView::Checkpoints,
            ExplorerView::Validators,
            ExplorerView::Lookup,
        ]
    }

    /// Position of the sub-view in the tab order.
    pub fn index(self) -> (r: usize)
        ensures
            r as nat == self.spec_index(),
            Self::spec_all()[r as int] == self,
    {
        match self {
            ExplorerView::Overview => 0,
            ExplorerView::Checkpoints => 1,
            ExplorerView::Validators => 2,
            ExplorerView::Lookup => 3,
        }
    }
}

/// Network overview stats displayed in the Explorer Overview sub-view.
#[derive(Debug, Clone)]
pub struct NetworkOverview {
    pub chain_id: String,
    pub epoch: String,
    pub gas_price: String,
    pub latest_checkpoint: String,
    pub total_txs: String,
}

/// A checkpoint row in the Explorer Checkpoints sub-view.
#[derive(Debug, Clone)]
pub struct CheckpointDisplay {
    pub sequence: u64,
    pub digest: String,
    pub timestamp: String,
    pub tx_count: u64,
}

/// A validator row in the Explorer Validators sub-view.
#[derive(Debug, Clone)]
pub struct ValidatorDisplay {
    pub name: String,
    pub address: String,
    pub stake: String,
}

/// What happens when a user presses Enter on a lookup field.
#[derive(Debug, Clone)]
pub enum LookupAction {
    /// Navigate to explorer lookup for this value.
    Explore(String),
    /// Search objects by type.
    TypeSearch(String),
}

/// A single key-value field in a lookup result, optionally navigable.
#[derive(Debug, Clone)]
pub struct LookupField {
    pub key: String,
    pub value: String,
    pub action: Option<LookupAction>,
}

/// A titled section in the lookup result (collapsible tree node).
#[derive(Debug, Clone)]
pub struct LookupSection {
    pub title: String,
    pub fields: Vec<LookupField>,
    pub collapsed: bool,
}

} // verus!
