//! What the detail popup shows of the selected item, what is copied of it,
//! and the CSV export of a list.

use vstd::prelude::*;
use crate::state::App;
use crate::text::{
    byte_len, byte_suffix, chars_of, dec, is_boundary, lowercase, owned, prefix_for_bytes,
    push_chars, push_dec, push_str, slice_to, sub_chars, suffix_for_bytes,
    to_lowercase,
};
use crate::types::{
    AddressEntry, CoinDisplay, KeyDisplay, ObjectDisplay, Screen, StakeDisplay,
    TransactionDisplay,
};

verus! {

/// A detail line as text: label and value.
pub open spec fn line_view(l: (&'static str, String)) -> (Seq<char>, Seq<char>) {
    (l.0@, l.1@)
}

pub open spec fn lines_view(v: Seq<(&'static str, String)>) -> Seq<(Seq<char>, Seq<char>)> {
    v.map_values(|l: (&'static str, String)| line_view(l))
}

/// The entry at position `i` of the combined address book: the keys
/// (labelled `alias (key)`, with their scheme as notes), then the saved
/// entries, as (label, address, notes).
pub open spec fn combined_entry(keys: Seq<KeyDisplay>, book: Seq<AddressEntry>, i: int) -> Option<
    (Seq<char>, Seq<char>, Seq<char>),
> {
    if 0 <= i < keys.len() {
        Some((keys[i].alias@ + " (key)"@, keys[i].address@, keys[i].scheme@))
    } else if keys.len() <= i < keys.len() + book.len() {
        let e = book[i - keys.len()];
        Some((e.label@, e.address@, e.notes@))
    } else {
        None
    }
}

pub open spec fn coin_detail(c: CoinDisplay, owners: bool) -> Seq<(Seq<char>, Seq<char>)> {
    let base = seq![
        ("Symbol"@, c.symbol@),
        ("Coin Type"@, c.coin_type@),
        ("Balance"@, c.balance_display@),
        ("Raw Balance"@, dec(c.balance as nat)),
        ("Object ID"@, c.object_id@),
    ];
    if owners {
        base.push(("Owner"@, c.owner_alias@))
    } else {
        base
    }
}

pub open spec fn object_detail(o: ObjectDisplay, owners: bool) -> Seq<(Seq<char>, Seq<char>)> {
    let base = seq![
        ("Object ID"@, o.object_id@),
        ("Type"@, o.object_type@),
        ("Version"@, o.version@),
        ("Digest"@, o.digest@),
        ("Owner"@, o.owner@),
    ];
    if owners {
        base.push(("Key"@, o.owner_alias@))
    } else {
        base
    }
}

pub open spec fn tx_detail(t: TransactionDisplay) -> Seq<(Seq<char>, Seq<char>)> {
    seq![
        ("Digest"@, t.digest@),
        ("Status"@, t.status@),
        ("Gas Used"@, t.gas_used@),
        ("Epoch"@, t.epoch@),
    ]
}

pub open spec fn stake_detail(s: StakeDisplay) -> Seq<(Seq<char>, Seq<char>)> {
    seq![
        ("Object ID"@, s.object_id@),
        ("Principal"@, s.principal_display@),
        ("Validator"@, s.validator_address@),
        ("Activation Epoch"@, s.activation_epoch@),
        ("Status"@, s.status@),
    ]
}

pub open spec fn key_detail(k: KeyDisplay, show_private: bool) -> Seq<(Seq<char>, Seq<char>)> {
    let base = seq![
        ("Alias"@, k.alias@),
        ("Address"@, k.address@),
        ("Scheme"@, k.scheme@),
        ("Active"@, if k.is_active { "Yes"@ } else { "No"@ }),
    ];
    if show_private {
        base.push(("Private Key"@, k.private_key_hex@))
    } else {
        base
    }
}

/// The lines of the selected item, or none when nothing is selected.
pub open spec fn when_selected<T>(items: Seq<T>, i: usize, f: spec_fn(T) -> Seq<(Seq<char>, Seq<char>)>) -> Seq<
    (Seq<char>, Seq<char>),
> {
    if i < items.len() {
        f(items[i as int])
    } else {
        Seq::empty()
    }
}

impl App {
    /// Title and (label, value) lines of the detail popup.
    pub open spec fn spec_detail_info(&self) -> (Seq<char>, Seq<(Seq<char>, Seq<char>)>) {
        let owners = self.spec_visible_key_count() > 1;
        match self.screen {
            Screen::Coins => (
                "Coin Details"@,
                when_selected(self.coins@, self.coins_selected, |c: CoinDisplay| coin_detail(c, owners)),
            ),
            Screen::Objects => (
                "Object Details"@,
                when_selected(
                    self.objects@,
                    self.objects_selected,
                    |o: ObjectDisplay| object_detail(o, owners),
                ),
            ),
            Screen::Transactions => (
                "Transaction Details"@,
                when_selected(
                    self.transactions@,
                    self.transactions_selected,
                    |t: TransactionDisplay| tx_detail(t),
                ),
            ),
            Screen::Staking => (
                "Stake Details"@,
                when_selected(self.stakes@, self.stakes_selected, |s: StakeDisplay| stake_detail(s)),
            ),
            Screen::Keys => (
                "Key Details"@,
                when_selected(
                    self.keys@,
                    self.keys_selected,
                    |k: KeyDisplay| key_detail(k, self.keys_show_private),
                ),
            ),
            Screen::AddressBook => (
                "Address Details"@,
                match combined_entry(self.keys@, self.address_book@, self.address_selected as int) {
                    Some(e) => seq![("Label"@, e.0), ("Address"@, e.1), ("Notes"@, e.2)],
                    None => Seq::empty(),
                },
            ),
            _ => ("Details"@, Seq::empty()),
        }
    }

    /// Returns (title, key-value lines) for the detail popup of the selected item.
    pub fn detail_info(&self) -> (r: (&'static str, Vec<(&'static str, String)>))
        ensures
            (r.0@, lines_view(r.1@)) == self.spec_detail_info(),
    {
        let owners = self.show_multiple_owners();
        let (title, fields): (&'static str, Vec<(&'static str, String)>) = match self.screen {
            Screen::Coins => (
                "Coin Details",
                if self.coins_selected < self.coins.len() {
                    let c = &self.coins[self.coins_selected];
                    let mut raw = String::new();
                    push_dec(&mut raw, c.balance);
                    let mut fields = vec![
                        ("Symbol", c.symbol.clone()),
                        ("Coin Type", c.coin_type.clone()),
                        ("Balance", c.balance_display.clone()),
                        ("Raw Balance", raw),
                        ("Object ID", c.object_id.clone()),
                    ];
                    if owners {
                        fields.push(("Owner", c.owner_alias.clone()));
                    }
                    fields
                } else {
                    Vec::new()
                },
            ),
            Screen::Objects => (
                "Object Details",
                if self.objects_selected < self.objects.len() {
                    let o = &self.objects[self.objects_selected];
                    let mut fields = vec![
                        ("Object ID", o.object_id.clone()),
                        ("Type", o.object_type.clone()),
                        ("Version", o.version.clone()),
                        ("Digest", o.digest.clone()),
                        ("Owner", o.owner.clone()),
                    ];
                    if owners {
                        fields.push(("Key", o.owner_alias.clone()));
                    }
                    fields
                } else {
                    Vec::new()
                },
            ),
            Screen::Transactions => (
                "Transaction Details",
                if self.transactions_selected < self.transactions.len() {
                    let t = &self.transactions[self.transactions_selected];
                    vec![
                        ("Digest", t.digest.clone()),
                        ("Status", t.status.clone()),
                        ("Gas Used", t.gas_used.clone()),
                        ("Epoch", t.epoch.clone()),
                    ]
                } else {
                    Vec::new()
                },
            ),
            Screen::Staking => (
                "Stake Details",
                if self.stakes_selected < self.stakes.len() {
                    let s = &self.stakes[self.stakes_selected];
                    vec![
                        ("Object ID", s.object_id.clone()),
                        ("Principal", s.principal_display.clone()),
                        ("Validator", s.validator_address.clone()),
                        ("Activation Epoch", s.activation_epoch.clone()),
                        ("Status", s.status.clone()),
                    ]
                } else {
                    Vec::new()
                },
            ),
            Screen::Keys => (
                "Key Details",
                if self.keys_selected < self.keys.len() {
                    let k = &self.keys[self.keys_selected];
                    let mut fields = vec![
                        ("Alias", k.alias.clone()),
                        ("Address", k.address.clone()),
                        ("Scheme", k.scheme.clone()),
                        (
                            "Active",
                            owned(
                                if k.is_active {
                                    "Yes"
                                } else {
                                    "No"
                                },
                            ),
                        ),
                    ];
                    if self.keys_show_private {
                        fields.push(("Private Key", k.private_key_hex.clone()));
                    }
                    fields
                } else {
                    Vec::new()
                },
            ),
            Screen::AddressBook => {
                let combined = self.combined_address_book();
                (
                    "Address Details",
                    if self.address_selected < combined.len() {
                        let e = &combined[self.address_selected];
                        proof {
                            let i = self.address_selected as int;
                            if i >= self.keys@.len() {
                                assert(combined@[i] == combined@.skip(self.keys@.len() as int)[i
                                    - self.keys@.len()]);
                            } else {
                                reveal_strlit(" (key)");
                            }
                        }
                        vec![
                            ("Label", e.label.clone()),
                            ("Address", e.address.clone()),
                            ("Notes", e.notes.clone()),
                        ]
                    } else {
                        Vec::new()
                    },
                )
            },
            _ => ("Details", Vec::new()),
        };
        assert(lines_view(fields@) =~= self.spec_detail_info().1);
        (title, fields)
    }
}

// ── Copying ───────────────────────────────────────────────────────

impl App {
    /// The text `copy_selected` puts on the clipboard: the id, digest or
    /// address of the selected item; in the explorer the selected field's
    /// value, or the section title on a heading.
    pub open spec fn spec_copy_text(&self) -> Option<Seq<char>> {
        match self.screen {
            Screen::Coins => if self.coins_selected < self.coins@.len() {
                Some(self.coins@[self.coins_selected as int].object_id@)
            } else {
                None
            },
            Screen::Objects => if self.objects_selected < self.objects@.len() {
                Some(self.objects@[self.objects_selected as int].object_id@)
            } else {
                None
            },
            Screen::Transactions => if self.transactions_selected < self.transactions@.len() {
                Some(self.transactions@[self.transactions_selected as int].digest@)
            } else {
                None
            },
            Screen::Staking => if self.stakes_selected < self.stakes@.len() {
                Some(self.stakes@[self.stakes_selected as int].object_id@)
            } else {
                None
            },
            Screen::Packages => {
                let idx = self.spec_package_indices();
                if self.packages_selected < idx.len() && idx[self.packages_selected as int]
                    < self.objects@.len() {
                    Some(self.objects@[idx[self.packages_selected as int] as int].object_id@)
                } else {
                    None
                }
            },
            Screen::AddressBook => match combined_entry(
                self.keys@,
                self.address_book@,
                self.address_selected as int,
            ) {
                Some(e) => Some(e.1),
                None => None,
            },
            Screen::Keys => if self.keys_selected < self.keys@.len() {
                Some(self.keys@[self.keys_selected as int].address@)
            } else {
                None
            },
            Screen::Explorer => match self.explorer.lookup_result {
                Some(r) => {
                    let secs = r.spec_sections();
                    let si = self.explorer.lookup_section as int;
                    if si < secs.len() {
                        if self.explorer.lookup_depth == 1 {
                            if self.explorer.lookup_field_idx < secs[si].fields@.len() {
                                Some(secs[si].fields@[self.explorer.lookup_field_idx as int].value@)
                            } else {
                                None
                            }
                        } else {
                            Some(secs[si].title@)
                        }
                    } else {
                        None
                    }
                },
                None => None,
            },
            Screen::TxBuilder => None,
        }
    }

    /// The primary field of the selected item, for the clipboard.
    pub fn copy_text(&self) -> (r: Option<String>)
        ensures
            match self.spec_copy_text() {
                Some(t) => r matches Some(s) && s@ == t,
                None => r is None,
            },
    {
        match self.screen {
            Screen::Coins => if self.coins_selected < self.coins.len() {
                Some(self.coins[self.coins_selected].object_id.clone())
            } else {
                None
            },
            Screen::Objects => if self.objects_selected < self.objects.len() {
                Some(self.objects[self.objects_selected].object_id.clone())
            } else {
                None
            },
            Screen::Transactions => if self.transactions_selected < self.transactions.len() {
                Some(self.transactions[self.transactions_selected].digest.clone())
            } else {
                None
            },
            Screen::Staking => if self.stakes_selected < self.stakes.len() {
                Some(self.stakes[self.stakes_selected].object_id.clone())
            } else {
                None
            },
            Screen::Packages => {
                let indices = self.package_indices();
                if self.packages_selected < indices.len() {
                    let i = indices[self.packages_selected];
                    if i < self.objects.len() {
                        Some(self.objects[i].object_id.clone())
                    } else {
                        None
                    }
                } else {
                    None
                }
            },
            Screen::AddressBook => {
                let combined = self.combined_address_book();
                if self.address_selected < combined.len() {
                    proof {
                        let i = self.address_selected as int;
                        if i >= self.keys@.len() {
                            assert(combined@[i] == combined@.skip(self.keys@.len() as int)[i
                                - self.keys@.len()]);
                        }
                    }
                    Some(combined[self.address_selected].address.clone())
                } else {
                    None
                }
            },
            Screen::Keys => if self.keys_selected < self.keys.len() {
                Some(self.keys[self.keys_selected].address.clone())
            } else {
                None
            },
            Screen::Explorer => match &self.explorer.lookup_result {
                Some(result) => {
                    let secs = result.sections();
                    let si = self.explorer.lookup_section;
                    if si < secs.len() {
                        if self.explorer.lookup_depth == 1 {
                            let fi = self.explorer.lookup_field_idx;
                            if fi < secs[si].fields.len() {
                                Some(secs[si].fields[fi].value.clone())
                            } else {
                                None
                            }
                        } else {
                            Some(secs[si].title.clone())
                        }
                    } else {
                        None
                    }
                },
                None => None,
            },
            Screen::TxBuilder => None,
        }
    }
}

/// What the notice after copying shows of the text: all of it, or for
/// more than 24 bytes its first and last 10 bytes around `..`.
pub open spec fn copied_display(t: Seq<char>) -> Seq<char> {
    if byte_len(t) > 24 {
        slice_to(t, 10) + ".."@ + byte_suffix(t, 10)
    } else {
        t
    }
}

/// The byte offsets the notice cuts at fall between characters.
pub open spec fn copied_display_ok(t: Seq<char>) -> bool {
    byte_len(t) <= 24 || (is_boundary(t, 10) && byte_len(byte_suffix(t, 10)) == 10)
}

/// The notice shown after `text` was copied.
pub fn copy_notice(text: &str) -> (r: String)
    requires
        copied_display_ok(text@),
    ensures
        r@ == "Copied: "@ + copied_display(text@),
{
    let v = chars_of(text);
    let mut r = owned("Copied: ");
    let ghost start = r@;
    if crate::text::fits_in_bytes(&v, 24) {
        push_chars(&mut r, &v);
    } else {
        let (i, _) = prefix_for_bytes(&v, 10);
        let (j, _) = suffix_for_bytes(&v, 10);
        let head = sub_chars(&v, 0, i);
        let tail = sub_chars(&v, j, v.len());
        assert(head@ =~= v@.take(i as int));
        assert(tail@ =~= v@.skip(j as int));
        push_chars(&mut r, &head);
        push_str(&mut r, "..");
        push_chars(&mut r, &tail);
    }
    assert(r@ =~= start + copied_display(text@));
    r
}

// ── CSV export ────────────────────────────────────────────────────

/// The rows of a list, one after the other.
pub open spec fn csv_rows<T>(items: Seq<T>, row: spec_fn(T) -> Seq<char>) -> Seq<char>
    decreases items.len(),
{
    if items.len() == 0 {
        Seq::empty()
    } else {
        csv_rows(items.drop_last(), row) + row(items.last())
    }
}

/// `v` as `Display` prints it.
pub open spec fn bool_text(v: bool) -> Seq<char> {
    if v {
        "true"@
    } else {
        "false"@
    }
}

pub open spec fn key_row(k: KeyDisplay) -> Seq<char> {
    k.alias@ + ","@ + k.address@ + ","@ + k.scheme@ + ","@ + bool_text(k.is_active) + "\n"@
}

pub open spec fn coin_row(x: CoinDisplay) -> Seq<char> {
    x.symbol@ + ","@ + x.coin_type@ + ","@ + x.balance_display@ + ","@ + x.object_id@ + ","@ + x.owner_alias@ + "\n"@
}

pub open spec fn object_row(x: ObjectDisplay) -> Seq<char> {
    x.object_id@ + ","@ + x.object_type@ + ","@ + x.version@ + ","@ + x.digest@ + ","@ + x.owner_alias@ + "\n"@
}

pub open spec fn tx_row(x: TransactionDisplay) -> Seq<char> {
    x.digest@ + ","@ + x.status@ + ","@ + x.gas_used@ + ","@ + x.epoch@ + "\n"@
}

pub open spec fn stake_row(x: StakeDisplay) -> Seq<char> {
    x.object_id@ + ","@ + x.principal_display@ + ","@ + x.validator_address@ + ","@ + x.activation_epoch@ + ","@ + x.status@ + "\n"@
}

pub open spec fn entry_row(x: AddressEntry) -> Seq<char> {
    x.label@ + ","@ + x.address@ + ","@ + x.notes@ + "\n"@
}

fn push_coin_rows(out: &mut String, items: &Vec<CoinDisplay>)
    ensures
        final(out)@ == old(out)@ + csv_rows(items@, |x: CoinDisplay| coin_row(x)),
{
    let ghost start = out@;
    assert(items@.take(0) =~= Seq::<CoinDisplay>::empty());
    for i in 0..items.len()
        invariant
            out@ == start + csv_rows(items@.take(i as int), |x: CoinDisplay| coin_row(x)),
    {
        proof {
            assert(items@.take(i + 1).drop_last() =~= items@.take(i as int));
        }
        let ghost before = out@;
        let x = &items[i];
        push_coin_row(out, x);
        assert(out@ =~= start + csv_rows(items@.take(i + 1), |x: CoinDisplay| coin_row(x)));
    }
    assert(items@.take(items@.len() as int) =~= items@);
}

fn push_coin_row(out: &mut String, x: &CoinDisplay)
    ensures
        final(out)@ == old(out)@ + coin_row(*x),
{
    let ghost start = out@;
    push_str(out, x.symbol.as_str());
    push_str(out, ",");
    push_str(out, x.coin_type.as_str());
    push_str(out, ",");
    push_str(out, x.balance_display.as_str());
    push_str(out, ",");
    push_str(out, x.object_id.as_str());
    push_str(out, ",");
    push_str(out, x.owner_alias.as_str());
    push_str(out, "\n");
    assert(out@ =~= start + coin_row(*x));
}

fn push_object_rows(out: &mut String, items: &Vec<ObjectDisplay>)
    ensures
        final(out)@ == old(out)@ + csv_rows(items@, |x: ObjectDisplay| object_row(x)),
{
    let ghost start = out@;
    assert(items@.take(0) =~= Seq::<ObjectDisplay>::empty());
    for i in 0..items.len()
        invariant
            out@ == start + csv_rows(items@.take(i as int), |x: ObjectDisplay| object_row(x)),
    {
        proof {
            assert(items@.take(i + 1).drop_last() =~= items@.take(i as int));
        }
        let ghost before = out@;
        let x = &items[i];
        push_object_row(out, x);
        assert(out@ =~= start + csv_rows(items@.take(i + 1), |x: ObjectDisplay| object_row(x)));
    }
    assert(items@.take(items@.len() as int) =~= items@);
}

fn push_object_row(out: &mut String, x: &ObjectDisplay)
    ensures
        final(out)@ == old(out)@ + object_row(*x),
{
    let ghost start = out@;
    push_str(out, x.object_id.as_str());
    push_str(out, ",");
    push_str(out, x.object_type.as_str());
    push_str(out, ",");
    push_str(out, x.version.as_str());
    push_str(out, ",");
    push_str(out, x.digest.as_str());
    push_str(out, ",");
    push_str(out, x.owner_alias.as_str());
    push_str(out, "\n");
    assert(out@ =~= start + object_row(*x));
}

fn push_tx_rows(out: &mut String, items: &Vec<TransactionDisplay>)
    ensures
        final(out)@ == old(out)@ + csv_rows(items@, |x: TransactionDisplay| tx_row(x)),
{
    let ghost start = out@;
    assert(items@.take(0) =~= Seq::<TransactionDisplay>::empty());
    for i in 0..items.len()
        invariant
            out@ == start + csv_rows(items@.take(i as int), |x: TransactionDisplay| tx_row(x)),
    {
        proof {
            assert(items@.take(i + 1).drop_last() =~= items@.take(i as int));
        }
        let ghost before = out@;
        let x = &items[i];
        push_tx_row(out, x);
        assert(out@ =~= start + csv_rows(items@.take(i + 1), |x: TransactionDisplay| tx_row(x)));
    }
    assert(items@.take(items@.len() as int) =~= items@);
}

fn push_tx_row(out: &mut String, x: &TransactionDisplay)
    ensures
        final(out)@ == old(out)@ + tx_row(*x),
{
    let ghost start = out@;
    push_str(out, x.digest.as_str());
    push_str(out, ",");
    push_str(out, x.status.as_str());
    push_str(out, ",");
    push_str(out, x.gas_used.as_str());
    push_str(out, ",");
    push_str(out, x.epoch.as_str());
    push_str(out, "\n");
    assert(out@ =~= start + tx_row(*x));
}

fn push_stake_rows(out: &mut String, items: &Vec<StakeDisplay>)
    ensures
        final(out)@ == old(out)@ + csv_rows(items@, |x: StakeDisplay| stake_row(x)),
{
    let ghost start = out@;
    assert(items@.take(0) =~= Seq::<StakeDisplay>::empty());
    for i in 0..items.len()
        invariant
            out@ == start + csv_rows(items@.take(i as int), |x: StakeDisplay| stake_row(x)),
    {
        proof {
            assert(items@.take(i + 1).drop_last() =~= items@.take(i as int));
        }
        let ghost before = out@;
        let x = &items[i];
        push_stake_row(out, x);
        assert(out@ =~= start + csv_rows(items@.take(i + 1), |x: StakeDisplay| stake_row(x)));
    }
    assert(items@.take(items@.len() as int) =~= items@);
}

fn push_stake_row(out: &mut String, x: &StakeDisplay)
    ensures
        final(out)@ == old(out)@ + stake_row(*x),
{
    let ghost start = out@;
    push_str(out, x.object_id.as_str());
    push_str(out, ",");
    push_str(out, x.principal_display.as_str());
    push_str(out, ",");
    push_str(out, x.validator_address.as_str());
    push_str(out, ",");
    push_str(out, x.activation_epoch.as_str());
    push_str(out, ",");
    push_str(out, x.status.as_str());
    push_str(out, "\n");
    assert(out@ =~= start + stake_row(*x));
}

fn push_entry_rows(out: &mut String, items: &Vec<AddressEntry>)
    ensures
        final(out)@ == old(out)@ + csv_rows(items@, |x: AddressEntry| entry_row(x)),
{
    let ghost start = out@;
    assert(items@.take(0) =~= Seq::<AddressEntry>::empty());
    for i in 0..items.len()
        invariant
            out@ == start + csv_rows(items@.take(i as int), |x: AddressEntry| entry_row(x)),
    {
        proof {
            assert(items@.take(i + 1).drop_last() =~= items@.take(i as int));
        }
        let ghost before = out@;
        let x = &items[i];
        push_entry_row(out, x);
        assert(out@ =~= start + csv_rows(items@.take(i + 1), |x: AddressEntry| entry_row(x)));
    }
    assert(items@.take(items@.len() as int) =~= items@);
}

fn push_entry_row(out: &mut String, x: &AddressEntry)
    ensures
        final(out)@ == old(out)@ + entry_row(*x),
{
    let ghost start = out@;
    push_str(out, x.label.as_str());
    push_str(out, ",");
    push_str(out, x.address.as_str());
    push_str(out, ",");
    push_str(out, x.notes.as_str());
    push_str(out, "\n");
    assert(out@ =~= start + entry_row(*x));
}

fn push_key_row(out: &mut String, k: &KeyDisplay)
    ensures
        final(out)@ == old(out)@ + key_row(*k),
{
    let ghost start = out@;
    push_str(out, k.alias.as_str());
    push_str(out, ",");
    push_str(out, k.address.as_str());
    push_str(out, ",");
    push_str(out, k.scheme.as_str());
    push_str(out, ",");
    push_str(
        out,
        if k.is_active {
            "true"
        } else {
            "false"
        },
    );
    push_str(out, "\n");
    assert(out@ =~= start + key_row(*k));
}

fn push_key_rows(out: &mut String, items: &Vec<KeyDisplay>)
    ensures
        final(out)@ == old(out)@ + csv_rows(items@, |x: KeyDisplay| key_row(x)),
{
    let ghost start = out@;
    assert(items@.take(0) =~= Seq::<KeyDisplay>::empty());
    for i in 0..items.len()
        invariant
            out@ == start + csv_rows(items@.take(i as int), |x: KeyDisplay| key_row(x)),
    {
        proof {
            assert(items@.take(i + 1).drop_last() =~= items@.take(i as int));
        }
        push_key_row(out, &items[i]);
        assert(out@ =~= start + csv_rows(items@.take(i + 1), |x: KeyDisplay| key_row(x)));
    }
    assert(items@.take(items@.len() as int) =~= items@);
}

impl App {
    /// The CSV text of the current screen's list (header line, then one
    /// line per item), or `None` for a screen that cannot be exported.
    pub open spec fn spec_export_content(&self) -> Option<Seq<char>> {
        match self.screen {
            Screen::Coins => Some("Symbol,Type,Balance,Object ID,Owner\n"@ + csv_rows(self.coins@, |x: CoinDisplay| coin_row(x))),
            Screen::Objects => Some("Object ID,Type,Version,Digest,Owner\n"@ + csv_rows(self.objects@, |x: ObjectDisplay| object_row(x))),
            Screen::Transactions => Some(
                "Digest,Status,Gas Used,Epoch\n"@ + csv_rows(self.transactions@, |x: TransactionDisplay| tx_row(x)),
            ),
            Screen::Staking => Some("Object ID,Principal,Validator,Epoch,Status\n"@ + csv_rows(self.stakes@, |x: StakeDisplay| stake_row(x))),
            Screen::Keys => Some("Alias,Address,Scheme,Active\n"@ + csv_rows(self.keys@, |x: KeyDisplay| key_row(x))),
            Screen::AddressBook => Some(
                "Label,Address,Notes\n"@ + csv_rows(self.address_book@, |x: AddressEntry| entry_row(x)),
            ),
            _ => None,
        }
    }

    /// Current screen data as CSV text.
    pub fn export_content(&self) -> (r: Option<String>)
        ensures
            match self.spec_export_content() {
                Some(t) => r matches Some(s) && s@ == t,
                None => r is None,
            },
    {
        let (header, ok): (&str, bool) = match self.screen {
            Screen::Coins => ("Symbol,Type,Balance,Object ID,Owner\n", true),
            Screen::Objects => ("Object ID,Type,Version,Digest,Owner\n", true),
            Screen::Transactions => ("Digest,Status,Gas Used,Epoch\n", true),
            Screen::Staking => ("Object ID,Principal,Validator,Epoch,Status\n", true),
            Screen::Keys => ("Alias,Address,Scheme,Active\n", true),
            Screen::AddressBook => ("Label,Address,Notes\n", true),
            _ => ("", false),
        };
        if !ok {
            return None;
        }
        let mut csv = owned(header);
        match self.screen {
            Screen::Coins => push_coin_rows(&mut csv, &self.coins),
            Screen::Objects => push_object_rows(&mut csv, &self.objects),
            Screen::Transactions => push_tx_rows(&mut csv, &self.transactions),
            Screen::Staking => push_stake_rows(&mut csv, &self.stakes),
            Screen::Keys => push_key_rows(&mut csv, &self.keys),
            _ => push_entry_rows(&mut csv, &self.address_book),
        }
        Some(csv)
    }
}

/// Spaces replaced by dashes.
pub open spec fn dashed(s: Seq<char>) -> Seq<char> {
    s.map_values(|c: char| if c == ' ' { '-' } else { c })
}

/// `iota-export-<screen>-<timestamp>.csv`, the screen's title in lower case
/// with dashes for spaces.
pub open spec fn spec_export_file_name(screen: Screen, timestamp: u64) -> Seq<char> {
    "iota-export-"@ + dashed(lowercase(screen.spec_title())) + "-"@ + dec(timestamp as nat) + ".csv"@
}

/// The file name of an export of `screen` made at `timestamp` (seconds).
pub fn export_file_name(screen: Screen, timestamp: u64) -> (r: String)
    ensures
        r@ == spec_export_file_name(screen, timestamp),
{
    let lower = to_lowercase(screen.title());
    let v = chars_of(lower.as_str());
    let mut d: Vec<char> = Vec::new();
    for i in 0..v.len()
        invariant
            d@ == dashed(v@.take(i as int)),
    {
        let c = v[i];
        d.push(if c == ' ' { '-' } else { c });
        assert(d@ =~= dashed(v@.take(i + 1)));
    }
    assert(v@.take(v@.len() as int) =~= v@);
    let mut r = owned("iota-export-");
    let ghost start = r@;
    push_chars(&mut r, &d);
    push_str(&mut r, "-");
    push_dec(&mut r, timestamp as u128);
    push_str(&mut r, ".csv");
    assert(r@ =~= spec_export_file_name(screen, timestamp));
    r
}

} // verus!
