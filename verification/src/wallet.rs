//! Messages between the views and the network backend, and the backend's
//! pure helpers (network names, timestamps, coin symbols).

use vstd::prelude::*;
use crate::lookup::LookupResult;
use crate::text::{
    byte_len, chars_of, dec, dec_padded, digit_value, is_digit, fits_in_bytes, has_prefix, last_segment,
    last_segment_of, owned, push_dec, push_dec_padded, push_str, starts_with, str_eq, trim,
    trim_str,
};
use crate::types::{
    CheckpointDisplay, DryRunInfo, LookupAction, LookupField, LookupSection,
    ModuleFunctionDisplay, ObjectDisplay,
    PackageModuleDisplay, PtbCommand, StakeDisplay, TransactionDisplay, ValidatorDisplay,
};

verus! {

// ── Data from the network ─────────────────────────────────────────

/// Raw coin data returned from the network.
#[derive(Debug, Clone)]
pub struct CoinInfo {
    pub coin_type: String,
    pub symbol: String,
    pub balance: u128,
    pub object_id: String,
}

/// Raw object data returned from the network.
#[derive(Debug, Clone)]
pub struct ObjectInfo {
    pub object_id: String,
    pub object_type: String,
    pub version: Option<u64>,
    pub digest: String,
    pub owner: String,
}

/// Aggregated balance for a coin type.
#[derive(Debug, Clone)]
pub struct BalanceInfo {
    pub coin_type: String,
    pub total_balance: u128,
}

/// A key persisted to disk.
#[derive(Debug, Clone)]
pub struct StoredKey {
    pub alias: String,
    pub scheme: String,
    pub private_key_bytes: Vec<u8>,
    pub address: String,
    pub is_active: bool,
}

// ── Networks ──────────────────────────────────────────────────────

/// IOTA network to connect to.
#[derive(Debug, Clone)]
pub enum Network {
    Mainnet,
    Testnet,
    Devnet,
    Custom(String),
}

impl Network {
    pub open spec fn spec_name(&self) -> Seq<char> {
        match self {
            Network::Mainnet => "mainnet"@,
            Network::Testnet => "testnet"@,
            Network::Devnet => "devnet"@,
            Network::Custom(url) => url@,
        }
    }

    /// The network's name as stored in the settings file (a URL for a
    /// custom network).
    pub fn name(&self) -> (r: &str)
        ensures
            r@ == self.spec_name(),
    {
        match self {
            Network::Mainnet => "mainnet",
            Network::Testnet => "testnet",
            Network::Devnet => "devnet",
            Network::Custom(url) => url.as_str(),
        }
    }

    /// The known network with this name; any other name is a custom URL.
    pub fn from_name(name: &str) -> (r: Self)
        ensures
            name@ == "mainnet"@ ==> r is Mainnet,
            name@ == "testnet"@ ==> r is Testnet,
            name@ == "devnet"@ ==> r is Devnet,
            name@ != "mainnet"@ && name@ != "testnet"@ && name@ != "devnet"@ ==> (r matches Network::Custom(url) && url@ == name@),
            r.spec_name() == name@,
    {
        proof {
            lemma_network_names_distinct();
        }
        if str_eq(name, "mainnet") {
            Network::Mainnet
        } else if str_eq(name, "testnet") {
            Network::Testnet
        } else if str_eq(name, "devnet") {
            Network::Devnet
        } else {
            Network::Custom(owned(name))
        }
    }
}

/// A network loaded from a saved name is saved under that same name again,
/// and the name of a known network loads as that network.
pub proof fn lemma_network_name_roundtrip(n: Network)
    ensures
        n.spec_name() == "mainnet"@ ==> n is Mainnet || n is Custom,
        n is Mainnet ==> n.spec_name() == "mainnet"@,
        n is Testnet ==> n.spec_name() == "testnet"@,
        n is Devnet ==> n.spec_name() == "devnet"@,
{
    lemma_network_names_distinct();
}

proof fn lemma_network_names_distinct()
    ensures
        "mainnet"@ != "testnet"@,
        "mainnet"@ != "devnet"@,
        "testnet"@ != "devnet"@,
{
    reveal_strlit("mainnet");
    reveal_strlit("testnet");
    reveal_strlit("devnet");
    assert("mainnet"@[0] != "testnet"@[0]);
    assert("mainnet"@.len() != "devnet"@.len());
    assert("testnet"@.len() != "devnet"@.len());
}

// ── Commands and responses ────────────────────────────────────────

#[allow(inconsistent_fields)]
/// Commands sent from the views to the wallet backend. Addresses travel as
/// the text the user's keys and address book hold.
#[derive(Debug)]
pub enum WalletCmd {
    Connect(Network),
    RefreshBalances(String),
    RefreshCoins { addr: String, alias: String },
    RefreshObjects { addr: String, alias: String },
    RefreshTransactions(String),
    RefreshStakes(String),
    GenerateKey { scheme: String, alias: String },
    ImportKey { scheme: String, private_key_hex: String, alias: String },
    ExecutePtb { sender_idx: usize, commands: Vec<PtbCommand>, gas_budget: u64 },
    DryRun { sender_idx: usize, commands: Vec<PtbCommand> },
    DeleteKey(usize),
    SetActiveKey(usize),
    RenameKey { idx: usize, new_alias: String },
    RequestFaucet(String),
    LookupIotaName { name: String, label: String, notes: String },
    RefreshNetworkOverview,
    RefreshCheckpoints { cursor: Option<String> },
    RefreshValidators,
    LookupAddress(String),
    SearchObjectsByType { type_filter: String, cursor: Option<String> },
    LookupAddressPage { address: String, obj_cursor: Option<String>, tx_cursor: Option<String> },
    FetchPackageModules { package_addr: String },
    FetchModuleFunctions { package_addr: String, module_name: String },
}

/// Events sent from the wallet backend back to the views.
#[allow(inconsistent_fields)]
#[derive(Debug)]
pub enum WalletEvent {
    Connected(String),
    Balances(Vec<BalanceInfo>),
    Coins { coins: Vec<CoinInfo>, owner_alias: String },
    Objects { objects: Vec<ObjectInfo>, owner_alias: String },
    Transactions(Vec<TransactionDisplay>),
    KeyGenerated { alias: String, address: String, scheme: String, private_key_hex: String },
    KeyImported { alias: String, address: String, scheme: String, private_key_hex: String },
    DryRunResult(DryRunInfo),
    TxSubmitted { digest: String },
    FaucetRequested(String),
    IotaNameResolved { name: String, label: String, notes: String, address: Option<String> },
    NetworkOverview {
        chain_id: String,
        epoch: String,
        gas_price: String,
        latest_checkpoint: String,
        total_transactions: String,
    },
    Checkpoints { checkpoints: Vec<CheckpointDisplay>, cursor: Option<String>, has_next: bool },
    Validators(Vec<ValidatorDisplay>),
    ExplorerLookupResult(LookupResult),
    AddressLookupPage {
        result: LookupResult,
        obj_cursor: Option<String>,
        obj_has_next: bool,
        tx_cursor: Option<String>,
        tx_has_next: bool,
    },
    ObjectSearchResults {
        objects: Vec<ObjectDisplay>,
        has_next_page: bool,
        end_cursor: Option<String>,
    },
    Stakes(Vec<StakeDisplay>),
    PackageModules { package_addr: String, modules: Vec<PackageModuleDisplay> },
    ModuleFunctions { module_name: String, functions: Vec<ModuleFunctionDisplay> },
    Error(String),
}

// ── Timestamps ────────────────────────────────────────────────────

/// Civil date (year, month, day) of a day count since 1970-01-01
/// (H. Hinnant's `civil_from_days`).
pub open spec fn spec_days_to_ymd(days: nat) -> (nat, nat, nat) {
    let z = days + 719468;
    let era = z / 146097;
    let doe = (z - era * 146097) as nat;
    let yoe = ((doe - doe / 1460 + doe / 36524 - doe / 146096) / 365) as nat;
    let y = yoe + era * 400;
    let doy = (doe - (365 * yoe + yoe / 4 - yoe / 100)) as nat;
    let mp = (5 * doy + 2) / 153;
    let d = (doy - (153 * mp + 2) / 5 + 1) as nat;
    let m: nat = if mp < 10 { mp + 3 } else { (mp - 9) as nat };
    let y2: nat = if m <= 2 { y + 1 } else { y };
    (y2, m, d)
}

proof fn lemma_ymd_ranges(doe: nat)
    requires
        doe < 146097,
    ensures
        ({
            let yoe = (doe - doe / 1460 + doe / 36524 - doe / 146096) / 365;
            let doy = doe - (365 * yoe + yoe / 4 - yoe / 100);
            &&& 0 <= yoe <= 399
            &&& 0 <= doy <= 365
            &&& 365 * yoe + yoe / 4 - yoe / 100 <= doe
        }),
{
    let yoe = (doe - doe / 1460 + doe / 36524 - doe / 146096) / 365;
    assert(0 <= yoe <= 399) by (nonlinear_arith)
        requires
            doe < 146097,
            yoe == (doe - doe / 1460 + doe / 36524 - doe / 146096) / 365,
    ;
    assert(365 * yoe + yoe / 4 - yoe / 100 <= doe && doe - (365 * yoe + yoe / 4 - yoe / 100) <= 365)
        by (nonlinear_arith)
        requires
            doe < 146097,
            yoe == (doe - doe / 1460 + doe / 36524 - doe / 146096) / 365,
            0 <= yoe <= 399,
    ;
}

// ── Gas ───────────────────────────────────────────────────────────

/// Gas charged: computation and storage, less the storage rebate, of which
/// no more than the storage cost counts.
pub open spec fn spec_gas_total(computation: nat, storage: nat, rebate: nat) -> nat {
    (computation + storage - if rebate <= storage {
        rebate
    } else {
        storage
    }) as nat
}

/// Gas charged (see `spec_gas_total`).
pub fn gas_total(computation: u64, storage: u64, rebate: u64) -> (t: u64)
    requires
        computation + storage <= u64::MAX,
    ensures
        t == spec_gas_total(computation as nat, storage as nat, rebate as nat),
{
    let counted = if rebate <= storage {
        rebate
    } else {
        storage
    };
    computation + storage - counted
}

/// A gas figure as shown in a transaction's details: "<n> NANOS".
pub open spec fn nanos_text(n: nat) -> Seq<char> {
    dec(n) + " NANOS"@
}

fn nanos_field(key: &str, n: u64) -> (f: LookupField)
    ensures
        f.key@ == key@,
        f.value@ == nanos_text(n as nat),
        f.action is None,
{
    let mut value = String::new();
    push_dec(&mut value, n as u128);
    push_str(&mut value, " NANOS");
    LookupField { key: owned(key), value, action: None }
}

/// The "Gas" section of a transaction's details: the total charged, then
/// the computation cost, the storage cost and the storage rebate, each in
/// NANOS.
pub fn gas_section(computation: u64, storage: u64, rebate: u64) -> (sec: LookupSection)
    requires
        computation + storage <= u64::MAX,
    ensures
        sec.title@ == "Gas"@,
        !sec.collapsed,
        sec.fields@.len() == 4,
        sec.fields@[0].key@ == "Total"@,
        sec.fields@[0].value@ == nanos_text(
            spec_gas_total(computation as nat, storage as nat, rebate as nat),
        ),
        sec.fields@[1].key@ == "Computation"@,
        sec.fields@[1].value@ == nanos_text(computation as nat),
        sec.fields@[2].key@ == "Storage"@,
        sec.fields@[2].value@ == nanos_text(storage as nat),
        sec.fields@[3].key@ == "Rebate"@,
        sec.fields@[3].value@ == nanos_text(rebate as nat),
        forall|i: int| 0 <= i < 4 ==> (#[trigger] sec.fields@[i]).action is None,
{
    let total = gas_total(computation, storage, rebate);
    let mut fields: Vec<LookupField> = Vec::new();
    fields.push(nanos_field("Total", total));
    fields.push(nanos_field("Computation", computation));
    fields.push(nanos_field("Storage", storage));
    fields.push(nanos_field("Rebate", rebate));
    LookupSection { title: owned("Gas"), fields, collapsed: false }
}

/// Convert days since the Unix epoch to a (year, month, day) civil date.
pub fn days_to_ymd(days_since_epoch: u64) -> (r: (u64, u64, u64))
    requires
        days_since_epoch <= u64::MAX - 719468,
    ensures
        (r.0 as nat, r.1 as nat, r.2 as nat) == spec_days_to_ymd(days_since_epoch as nat),
        1 <= r.1 <= 12,
        1 <= r.2 <= 31,
{
    let z = days_since_epoch + 719468;
    let era = z / 146097;
    let doe = z - era * 146097;
    proof {
        lemma_ymd_ranges(doe as nat);
    }
    let yoe = (doe - doe / 1460 + doe / 36524 - doe / 146096) / 365;
    let y = yoe + era * 400;
    let doy = doe - (365 * yoe + yoe / 4 - yoe / 100);
    let mp = (5 * doy + 2) / 153;
    proof {
        assert(mp <= 11 && (153 * mp + 2) / 5 <= doy && doy - (153 * mp + 2) / 5 <= 30) by (
        nonlinear_arith)
            requires
                doy <= 365,
                mp == (5 * doy + 2) / 153,
        ;
    }
    let d = doy - (153 * mp + 2) / 5 + 1;
    let m = if mp < 10 { mp + 3 } else { mp - 9 };
    let y = if m <= 2 { y + 1 } else { y };
    (y, m, d)
}

/// `format_timestamp_ms`: `YYYY-MM-DD HH:MM` in UTC.
pub open spec fn spec_format_timestamp_ms(ms: nat) -> Seq<char> {
    let secs = ms / 1000;
    let days = secs / 86400;
    let time_secs = secs % 86400;
    let hours = time_secs / 3600;
    let minutes = (time_secs % 3600) / 60;
    let ymd = spec_days_to_ymd(days);
    dec(ymd.0) + "-"@ + dec_padded(ymd.1, 2) + "-"@ + dec_padded(ymd.2, 2) + " "@ + dec_padded(
        hours,
        2,
    ) + ":"@ + dec_padded(minutes, 2)
}

/// The number two decimal digits denote.
pub open spec fn two_digits(a: char, b: char) -> nat {
    digit_value(a) * 10 + digit_value(b)
}

proof fn lemma_dec_padded_two(x: nat)
    requires
        x < 100,
    ensures
        dec_padded(x, 2).len() == 2,
        is_digit(dec_padded(x, 2)[0]),
        is_digit(dec_padded(x, 2)[1]),
        two_digits(dec_padded(x, 2)[0], dec_padded(x, 2)[1]) == x,
{
    if x < 10 {
        assert(dec(x) =~= seq![crate::text::digit_char(x)]);
        assert(dec_padded(x, 2) =~= seq!['0', crate::text::digit_char(x)]);
    } else {
        assert(dec(x / 10) =~= seq![crate::text::digit_char(x / 10)]);
        assert(dec(x) =~= seq![crate::text::digit_char(x / 10), crate::text::digit_char(x % 10)]);
    }
}

/// A timestamp's text ends in `HH:MM`, the hour and minute of the day
/// (UTC) that the timestamp falls in.
pub proof fn lemma_timestamp_hour_minute(ms: nat)
    ensures
        ({
            let s = spec_format_timestamp_ms(ms);
            let n = s.len();
            let hh = two_digits(s[n - 5], s[n - 4]);
            let mm = two_digits(s[n - 2], s[n - 1]);
            &&& n >= 5
            &&& s[n - 3] == ':'
            &&& is_digit(s[n - 5]) && is_digit(s[n - 4]) && is_digit(s[n - 2]) && is_digit(s[n - 1])
            &&& hh < 24 && mm < 60
            &&& hh * 3600 + mm * 60 <= (ms / 1000) % 86400 < hh * 3600 + mm * 60 + 60
        }),
{
    let secs = ms / 1000;
    let time_secs = secs % 86400;
    let hours = time_secs / 3600;
    let minutes = (time_secs % 3600) / 60;
    lemma_dec_padded_two(hours);
    lemma_dec_padded_two(minutes);
    let ymd = spec_days_to_ymd(secs / 86400);
    let pre = dec(ymd.0) + "-"@ + dec_padded(ymd.1, 2) + "-"@ + dec_padded(ymd.2, 2) + " "@;
    let h = dec_padded(hours, 2);
    let m = dec_padded(minutes, 2);
    let s = spec_format_timestamp_ms(ms);
    reveal_strlit(":");
    assert(s =~= pre + h + ":"@ + m);
    let n = s.len();
    assert(s[n - 5] == h[0] && s[n - 4] == h[1] && s[n - 3] == ':' && s[n - 2] == m[0] && s[n - 1]
        == m[1]);
}

/// A timestamp's text starts with the date of the day it falls in, as
/// `days_to_ymd` gives it: the year in decimal, then `-MM-DD `.
pub proof fn lemma_timestamp_date(ms: nat)
    ensures
        ({
            let s = spec_format_timestamp_ms(ms);
            let n = s.len();
            let (y, m, d) = spec_days_to_ymd(ms / 1000 / 86400);
            &&& n >= 13
            &&& s[n - 12] == '-' && s[n - 9] == '-' && s[n - 6] == ' '
            &&& crate::text::all_digits(s.take(n - 12))
            &&& crate::text::digits_value(s.take(n - 12)) == y
            &&& two_digits(s[n - 11], s[n - 10]) == m
            &&& two_digits(s[n - 8], s[n - 7]) == d
        }),
{
    let secs = ms / 1000;
    let days = secs / 86400;
    let time_secs = secs % 86400;
    let hours = time_secs / 3600;
    let minutes = (time_secs % 3600) / 60;
    let ymd = spec_days_to_ymd(days);
    crate::calendar::lemma_days_to_ymd_real_date(days);
    lemma_dec_padded_two(ymd.1);
    lemma_dec_padded_two(ymd.2);
    lemma_dec_padded_two(hours);
    lemma_dec_padded_two(minutes);
    crate::text::lemma_dec_len(ymd.0);
    let yt = dec(ymd.0);
    let mo = dec_padded(ymd.1, 2);
    let dd = dec_padded(ymd.2, 2);
    let h = dec_padded(hours, 2);
    let mi = dec_padded(minutes, 2);
    let s = spec_format_timestamp_ms(ms);
    reveal_strlit(":");
    reveal_strlit("-");
    reveal_strlit(" ");
    assert(s =~= yt + "-"@ + mo + "-"@ + dd + " "@ + h + ":"@ + mi);
    let n = s.len();
    assert(n == yt.len() + 12);
    assert(s.take(n - 12) =~= yt);
    assert(s[n - 12] == '-' && s[n - 11] == mo[0] && s[n - 10] == mo[1] && s[n - 9] == '-');
    assert(s[n - 8] == dd[0] && s[n - 7] == dd[1] && s[n - 6] == ' ');
}

/// Format a millisecond Unix timestamp as a UTC date and time.
pub fn format_timestamp_ms(ms: u64) -> (s: String)
    ensures
        s@ == spec_format_timestamp_ms(ms as nat),
{
    let secs = ms / 1000;
    let days = secs / 86400;
    let time_secs = secs % 86400;
    let hours = time_secs / 3600;
    let minutes = (time_secs % 3600) / 60;
    let (year, month, day) = days_to_ymd(days);
    let mut s = String::new();
    push_dec(&mut s, year as u128);
    push_str(&mut s, "-");
    push_dec_padded(&mut s, month as u128, 2);
    push_str(&mut s, "-");
    push_dec_padded(&mut s, day as u128, 2);
    push_str(&mut s, " ");
    push_dec_padded(&mut s, hours as u128, 2);
    push_str(&mut s, ":");
    push_dec_padded(&mut s, minutes as u128, 2);
    assert(s@ =~= spec_format_timestamp_ms(ms as nat));
    s
}

// ── Coin types and lookup values ──────────────────────────────────

/// The coin symbol: the last `::` segment of its type (`0x2::iota::IOTA` → `IOTA`).
pub fn extract_symbol(coin_type: &str) -> (r: String)
    ensures
        r@ == last_segment(coin_type@),
{
    last_segment_of(coin_type)
}

/// `guess_action_from_value`: a trimmed value that starts with `0x` and has
/// at least 40 bytes looks like an address, object id or digest.
pub open spec fn spec_guess_action(val: Seq<char>) -> Option<Seq<char>> {
    let t = trim(val);
    if has_prefix(t, "0x"@) && byte_len(t) >= 40 {
        Some(t)
    } else {
        None
    }
}

/// Guess whether a string value looks like an address/object ID or digest.
pub fn guess_action_from_value(val: &str) -> (r: Option<LookupAction>)
    ensures
        spec_guess_action(val@) is None ==> r is None,
        spec_guess_action(val@) matches Some(t) ==> (r matches Some(LookupAction::Explore(x)) && x@
            == t),
{
    let t = trim_str(val);
    let v = chars_of(t.as_str());
    let ox = chars_of("0x");
    if starts_with(&v, &ox) && !fits_in_bytes(&v, 39) {
        Some(LookupAction::Explore(t))
    } else {
        None
    }
}

} // verus!
