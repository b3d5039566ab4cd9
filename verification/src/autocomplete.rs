//! Suggestions while typing into an address or object field: key aliases
//! and address-book labels, or coins and objects, matched without regard
//! to case.

use vstd::prelude::*;
use crate::state::App;
use crate::input::input_ok;
use crate::text::{
    byte_len, byte_len_of, chars_of, contains_seq, has_prefix, is_boundary, last_segment,
    last_segment_of, lowercase, owned, prefix_for_bytes, push_chars, push_str, slice_to,
    starts_with, str_contains, str_eq, sub_chars, to_lowercase,
};
use crate::types::{AddressEntry, CoinDisplay, KeyDisplay, ObjectDisplay, Popup, PopupFocus};

verus! {

/// A suggestion as text: what is shown, and the value it stands for.
pub open spec fn pair_view(p: (String, String)) -> (Seq<char>, Seq<char>) {
    (p.0@, p.1@)
}

pub open spec fn pairs_view(v: Seq<(String, String)>) -> Seq<(Seq<char>, Seq<char>)> {
    v.map_values(|p: (String, String)| pair_view(p))
}

/// Keys whose lowercased alias contains `q`: (alias, address).
pub open spec fn key_suggestions(keys: Seq<KeyDisplay>, q: Seq<char>) -> Seq<(Seq<char>, Seq<char>)>
    decreases keys.len(),
{
    if keys.len() == 0 {
        Seq::empty()
    } else {
        let r = key_suggestions(keys.drop_last(), q);
        let k = keys.last();
        if contains_seq(lowercase(k.alias@), q) {
            r.push((k.alias@, k.address@))
        } else {
            r
        }
    }
}

/// Address-book entries whose lowercased label contains `q`: (label, address).
pub open spec fn book_suggestions(book: Seq<AddressEntry>, q: Seq<char>) -> Seq<(Seq<char>, Seq<char>)>
    decreases book.len(),
{
    if book.len() == 0 {
        Seq::empty()
    } else {
        let r = book_suggestions(book.drop_last(), q);
        let e = book.last();
        if contains_seq(lowercase(e.label@), q) {
            r.push((e.label@, e.address@))
        } else {
            r
        }
    }
}

/// How a coin is offered: `SYMBOL (balance)`.
pub open spec fn coin_label(c: CoinDisplay) -> Seq<char> {
    c.symbol@ + " ("@ + c.balance_display@ + ")"@
}

/// Coins not picked yet whose label or id contains `q`: (label, object id).
pub open spec fn coin_suggestions(
    coins: Seq<CoinDisplay>,
    taken: Seq<Seq<char>>,
    q: Seq<char>,
) -> Seq<(Seq<char>, Seq<char>)>
    decreases coins.len(),
{
    if coins.len() == 0 {
        Seq::empty()
    } else {
        let r = coin_suggestions(coins.drop_last(), taken, q);
        let c = coins.last();
        if !taken.contains(c.object_id@) && (contains_seq(lowercase(coin_label(c)), q)
            || contains_seq(lowercase(c.object_id@), q)) {
            r.push((coin_label(c), c.object_id@))
        } else {
            r
        }
    }
}

/// At most the first 12 bytes of an object id.
pub open spec fn id_head(id: Seq<char>) -> Seq<char> {
    slice_to(id, if byte_len(id) < 12 { byte_len(id) } else { 12 })
}

/// How an object is offered: the short type and the head of its id.
pub open spec fn object_label(o: ObjectDisplay) -> Seq<char> {
    last_segment(o.object_type@) + " "@ + id_head(o.object_id@)
}

/// The head of every object id is cut between characters.
pub open spec fn object_ids_ok(objs: Seq<ObjectDisplay>) -> bool {
    forall|i: int|
        0 <= i < objs.len() ==> byte_len((#[trigger] objs[i]).object_id@) <= 12 || is_boundary(
            objs[i].object_id@,
            12,
        )
}

/// Objects not picked yet whose label, id or type contains `q`: (label, object id).
pub open spec fn object_suggestions(
    objs: Seq<ObjectDisplay>,
    taken: Seq<Seq<char>>,
    q: Seq<char>,
) -> Seq<(Seq<char>, Seq<char>)>
    decreases objs.len(),
{
    if objs.len() == 0 {
        Seq::empty()
    } else {
        let r = object_suggestions(objs.drop_last(), taken, q);
        let o = objs.last();
        if !taken.contains(o.object_id@) && (contains_seq(lowercase(object_label(o)), q)
            || contains_seq(lowercase(o.object_id@), q) || contains_seq(
            lowercase(o.object_type@),
            q,
        )) {
            r.push((object_label(o), o.object_id@))
        } else {
            r
        }
    }
}

/// The first five of a list of suggestions.
pub open spec fn first_five(s: Seq<(Seq<char>, Seq<char>)>) -> Seq<(Seq<char>, Seq<char>)> {
    if s.len() <= 5 {
        s
    } else {
        s.take(5)
    }
}

impl App {
    /// The recipient field of a quick transfer popup is being edited.
    pub open spec fn quick_addr(&self) -> bool {
        &&& (self.popup == Some(Popup::QuickTransfer) || self.popup == Some(Popup::ObjectTransfer))
        &&& self.popup_focus == PopupFocus::Fields
        &&& (self.popup == Some(Popup::ObjectTransfer) || self.quick_transfer_field == 0)
    }

    pub open spec fn completes_address(&self) -> bool {
        self.tx.spec_is_address_field() || self.quick_addr()
    }

    /// All suggestions for the input, or `None` when nothing is suggested
    /// (no completable field, empty input, or an address typed as `0x...`).
    #[verifier::opaque]
    pub open spec fn all_suggestions(&self) -> Option<Seq<(Seq<char>, Seq<char>)>> {
        let is_addr = self.completes_address();
        let is_obj = self.tx.spec_is_object_field();
        let input = self.input_buffer@;
        if (!is_addr && !is_obj) || input.len() == 0 {
            None
        } else if is_addr && has_prefix(input, "0x"@) {
            None
        } else {
            let q = lowercase(input);
            let taken = self.tx.multi_values@.map_values(|s: String| s@);
            Some(
                if is_addr {
                    key_suggestions(self.keys@, q) + book_suggestions(self.address_book@, q)
                } else if self.tx.spec_is_coin_field() {
                    coin_suggestions(self.coins@, taken, q)
                } else {
                    object_suggestions(self.objects@, taken, q)
                },
            )
        }
    }

    /// The input asks for object suggestions (the only ones that cut
    /// object ids): some input in an object field that takes no coin and no
    /// address.
    pub open spec fn suggests_objects(&self) -> bool {
        &&& !self.completes_address()
        &&& self.tx.spec_is_object_field()
        &&& !self.tx.spec_is_coin_field()
        &&& self.input_buffer@.len() > 0
    }

    /// The suggestions after `update_autocomplete`: at most five, the
    /// highlighted one kept within the list; nothing else changes.
    #[verifier::opaque]
    pub open spec fn suggestions_refreshed(&self, o: &App) -> bool {
        &&& match o.all_suggestions() {
                None => self.autocomplete@.len() == 0 && self.autocomplete_idx is None,
                Some(all) => {
                    let m = first_five(all);
                    &&& pairs_view(self.autocomplete@) == m
                    &&& self.autocomplete_idx == match o.autocomplete_idx {
                        Some(i) => if i >= m.len() {
                            if m.len() == 0 {
                                None
                            } else {
                                Some((m.len() - 1) as usize)
                            }
                        } else {
                            Some(i)
                        },
                        None => None,
                    }
                },
            }
        &&& *self == (App {
                autocomplete: self.autocomplete,
                autocomplete_idx: self.autocomplete_idx,
                ..*o
            })
    }

    /// Compute autocomplete suggestions based on current input: at most five,
    /// the highlighted one kept within the list.
    pub fn update_autocomplete(&mut self)
        requires
            old(self).suggests_objects() ==> object_ids_ok(old(self).objects@),
        ensures
            final(self).suggestions_refreshed(old(self)),
    {
        let (list, idx) = self.next_suggestions();
        self.autocomplete = list;
        self.autocomplete_idx = idx;
        proof {
            reveal(App::suggestions_refreshed);
        }
    }

    /// The suggestion list to show and the highlighted index that follows.
    fn next_suggestions(&self) -> (r: (Vec<(String, String)>, Option<usize>))
        requires
            self.suggests_objects() ==> object_ids_ok(self.objects@),
        ensures
            match self.all_suggestions() {
                None => r.0@.len() == 0 && r.1 is None,
                Some(all) => {
                    let m = first_five(all);
                    &&& pairs_view(r.0@) == m
                    &&& r.1 == match self.autocomplete_idx {
                        Some(i) => if i >= m.len() {
                            if m.len() == 0 {
                                None
                            } else {
                                Some((m.len() - 1) as usize)
                            }
                        } else {
                            Some(i)
                        },
                        None => None,
                    }
                },
            },
    {
        match self.suggestions() {
            None => (Vec::new(), None),
            Some(matches) => {
                let mut matches = matches;
                let ghost all = matches@;
                matches.truncate(5);
                proof {
                    if all.len() > 5 {
                        assert(pairs_view(matches@) =~= pairs_view(all).take(5));
                    }
                }
                let idx = match self.autocomplete_idx {
                    Some(i) => {
                        if i >= matches.len() {
                            if matches.len() == 0 {
                                None
                            } else {
                                Some(matches.len() - 1)
                            }
                        } else {
                            Some(i)
                        }
                    },
                    None => None,
                };
                (matches, idx)
            },
        }
    }

    /// The suggestions for the current input (all of them), or `None`.
    fn suggestions(&self) -> (r: Option<Vec<(String, String)>>)
        requires
            self.suggests_objects() ==> object_ids_ok(self.objects@),
        ensures
            match self.all_suggestions() {
                None => r is None,
                Some(all) => r matches Some(v) && pairs_view(v@) == all,
            },
    {
        proof {
            reveal(App::all_suggestions);
        }
        let quick_addr = (self.popup == Some(Popup::QuickTransfer) || self.popup == Some(
            Popup::ObjectTransfer,
        )) && self.popup_focus == PopupFocus::Fields && (self.popup == Some(Popup::ObjectTransfer)
            || self.quick_transfer_field == 0);
        let is_addr = self.tx.is_address_field() || quick_addr;
        let is_obj = self.tx.is_object_field();
        if (!is_addr && !is_obj) || self.input_buffer.as_str().is_empty() {
            return None;
        }
        let input = chars_of(self.input_buffer.as_str());
        let ox = chars_of("0x");
        if is_addr && starts_with(&input, &ox) {
            return None;
        }
        let query = to_lowercase(self.input_buffer.as_str());
        let matches = if is_addr {
            let mut a = key_suggestions_of(&self.keys, &query);
            let mut b = book_suggestions_of(&self.address_book, &query);
            let ghost va = pairs_view(a@);
            let ghost vb = pairs_view(b@);
            a.append(&mut b);
            assert(pairs_view(a@) =~= va + vb);
            a
        } else if self.tx.is_coin_field() {
            coin_suggestions_of(&self.coins, &self.tx.multi_values, &query)
        } else {
            object_suggestions_of(&self.objects, &self.tx.multi_values, &query)
        };
        Some(matches)
    }
}

/// Each suggestion's texts fit, with room to edit, in an input buffer.
pub open spec fn suggestions_fit(ac: Seq<(String, String)>) -> bool {
    forall|i: int|
        0 <= i < ac.len() ==> byte_len((#[trigger] ac[i]).0@) + 4 <= usize::MAX && byte_len(
            ac[i].1@,
        ) + 4 <= usize::MAX
}

impl App {
    /// The suggestion `accept_autocomplete` takes: the highlighted one, or the first.
    pub open spec fn picked_suggestion(&self) -> Option<(String, String)> {
        let idx: int = match self.autocomplete_idx {
            Some(i) => i as int,
            None => 0,
        };
        if 0 <= idx < self.autocomplete@.len() {
            Some(self.autocomplete@[idx])
        } else {
            None
        }
    }

    /// What `accept_autocomplete` did: whether a suggestion was taken,
    /// and the state after it (see that function).
    #[verifier::opaque]
    pub open spec fn suggestion_accepted(&self, o: &App, accepted: bool) -> bool {
        &&& accepted == o.picked_suggestion() is Some
        &&& !accepted ==> *self == *o
        &&& o.picked_suggestion() matches Some(p) ==> {
            let ins = if o.tx.spec_is_object_field() {
                p.1
            } else {
                p.0
            };
            &&& self.autocomplete@.len() == 0
            &&& self.input_ok()
            &&& o.tx.spec_is_multi_value_field() ==> {
                &&& self.tx.multi_values@ == o.tx.multi_values@.push(ins)
                &&& self.input_buffer@.len() == 0
                &&& self.input_cursor == 0
            }
            &&& !o.tx.spec_is_multi_value_field() ==> {
                &&& self.tx.multi_values == o.tx.multi_values
                &&& self.input_buffer == ins
                &&& self.input_cursor == byte_len(ins@)
            }
            &&& *self == (App {
                tx: crate::tx_builder::TxBuilderState { multi_values: self.tx.multi_values, ..o.tx },
                input_buffer: self.input_buffer,
                input_cursor: self.input_cursor,
                autocomplete: self.autocomplete,
                autocomplete_idx: None,
                ..*o
            })
        }
    }

    /// Accept the currently highlighted autocomplete suggestion.
    /// Returns true if a suggestion was accepted.
    /// For address fields, inserts the alias (resolved later). For object fields, inserts the ID.
    /// For multi-value fields, adds to `tx.multi_values` and clears the input for the next pick.
    #[verifier::rlimit(40)]
    pub fn accept_autocomplete(&mut self) -> (accepted: bool)
        requires
            suggestions_fit(old(self).autocomplete@),
        ensures
            final(self).suggestion_accepted(old(self), accepted),
    {
        let idx = match self.autocomplete_idx {
            Some(i) => i,
            None => 0,
        };
        if idx >= self.autocomplete.len() {
            proof {
                reveal(App::suggestion_accepted);
            }
            return false;
        }
        let (extra, buf, cursor) = self.pick(idx);
        push_some(&mut self.tx.multi_values, extra);
        self.input_buffer = buf;
        self.input_cursor = cursor;
        self.autocomplete.clear();
        self.autocomplete_idx = None;
        proof {
            reveal(App::suggestion_accepted);
        }
        true
    }

    /// What accepting suggestion `idx` does: the value added to a
    /// multi-value field (if it is one), the new input and cursor.
    fn pick(&self, idx: usize) -> (r: (Option<String>, String, usize))
        requires
            idx < self.autocomplete@.len(),
            suggestions_fit(self.autocomplete@),
        ensures
            ({
                let p = self.autocomplete@[idx as int];
                let ins = if self.tx.spec_is_object_field() {
                    p.1
                } else {
                    p.0
                };
                if self.tx.spec_is_multi_value_field() {
                    r.0 == Some(ins) && r.1@.len() == 0 && r.2 == 0
                } else {
                    r.0 is None && r.1 == ins && r.2 == byte_len(ins@)
                }
            }),
            input_ok(r.1@, r.2 as nat),
    {
        let is_obj = self.tx.is_object_field();
        let insertion = if is_obj {
            self.autocomplete[idx].1.clone()
        } else {
            self.autocomplete[idx].0.clone()
        };
        proof {
            crate::text::lemma_boundary_at_end(insertion@);
            crate::text::lemma_boundary_at_end(Seq::<char>::empty());
        }
        if self.tx.is_multi_value_field() {
            (Some(insertion), String::new(), 0)
        } else {
            let c = byte_len_of(&chars_of(insertion.as_str()));
            (None, insertion, c)
        }
    }

    /// Remove the last item from multi-value accumulator (undo last pick).
    pub fn remove_last_multi_value(&mut self)
        ensures
            final(self).tx.multi_values@ == if old(self).tx.multi_values@.len() == 0 {
                old(self).tx.multi_values@
            } else {
                old(self).tx.multi_values@.drop_last()
            },
            *final(self) == (App {
                tx: crate::tx_builder::TxBuilderState {
                    multi_values: final(self).tx.multi_values,
                    ..old(self).tx
                },
                ..*old(self)
            }),
    {
        let _ = self.tx.multi_values.pop();
    }
}

/// Append the value, if there is one.
fn push_some(v: &mut Vec<String>, x: Option<String>)
    ensures
        final(v)@ == match x {
            Some(s) => old(v)@.push(s),
            None => old(v)@,
        },
        x is None ==> *final(v) == *old(v),
{
    match x {
        Some(s) => v.push(s),
        None => {},
    }
}

/// Whether `v` holds a string equal to `s`.
fn holds_string(v: &Vec<String>, s: &String) -> (b: bool)
    ensures
        b == v@.map_values(|x: String| x@).contains(s@),
{
    let ghost w = v@.map_values(|x: String| x@);
    for i in 0..v.len()
        invariant
            w == v@.map_values(|x: String| x@),
            forall|j: int| 0 <= j < i ==> w[j] != s@,
    {
        if str_eq(v[i].as_str(), s.as_str()) {
            assert(w[i as int] == s@);
            return true;
        }
    }
    false
}

fn key_suggestions_of(keys: &Vec<KeyDisplay>, q: &String) -> (r: Vec<(String, String)>)
    ensures
        pairs_view(r@) == key_suggestions(keys@, q@),
{
    let mut r: Vec<(String, String)> = Vec::new();
    for i in 0..keys.len()
        invariant
            pairs_view(r@) == key_suggestions(keys@.take(i as int), q@),
    {
        proof {
            assert(keys@.take(i + 1).drop_last() =~= keys@.take(i as int));
        }
        let k = &keys[i];
        let l = to_lowercase(k.alias.as_str());
        if str_contains(l.as_str(), q.as_str()) {
            r.push((k.alias.clone(), k.address.clone()));
        }
        assert(pairs_view(r@) =~= key_suggestions(keys@.take(i + 1), q@));
    }
    assert(keys@.take(keys@.len() as int) =~= keys@);
    r
}

fn book_suggestions_of(book: &Vec<AddressEntry>, q: &String) -> (r: Vec<(String, String)>)
    ensures
        pairs_view(r@) == book_suggestions(book@, q@),
{
    let mut r: Vec<(String, String)> = Vec::new();
    for i in 0..book.len()
        invariant
            pairs_view(r@) == book_suggestions(book@.take(i as int), q@),
    {
        proof {
            assert(book@.take(i + 1).drop_last() =~= book@.take(i as int));
        }
        let e = &book[i];
        let l = to_lowercase(e.label.as_str());
        if str_contains(l.as_str(), q.as_str()) {
            r.push((e.label.clone(), e.address.clone()));
        }
        assert(pairs_view(r@) =~= book_suggestions(book@.take(i + 1), q@));
    }
    assert(book@.take(book@.len() as int) =~= book@);
    r
}

fn coin_label_of(c: &CoinDisplay) -> (r: String)
    ensures
        r@ == coin_label(*c),
{
    let mut s = owned(c.symbol.as_str());
    push_str(&mut s, " (");
    push_str(&mut s, c.balance_display.as_str());
    push_str(&mut s, ")");
    s
}

fn coin_suggestions_of(coins: &Vec<CoinDisplay>, taken: &Vec<String>, q: &String) -> (r: Vec<
    (String, String),
>)
    ensures
        pairs_view(r@) == coin_suggestions(coins@, taken@.map_values(|s: String| s@), q@),
{
    let ghost t = taken@.map_values(|s: String| s@);
    let mut r: Vec<(String, String)> = Vec::new();
    for i in 0..coins.len()
        invariant
            t == taken@.map_values(|s: String| s@),
            pairs_view(r@) == coin_suggestions(coins@.take(i as int), t, q@),
    {
        proof {
            assert(coins@.take(i + 1).drop_last() =~= coins@.take(i as int));
        }
        let c = &coins[i];
        if !holds_string(taken, &c.object_id) {
            let label = coin_label_of(c);
            let ll = to_lowercase(label.as_str());
            let li = to_lowercase(c.object_id.as_str());
            if str_contains(ll.as_str(), q.as_str()) || str_contains(li.as_str(), q.as_str()) {
                r.push((label, c.object_id.clone()));
            }
        }
        assert(pairs_view(r@) =~= coin_suggestions(coins@.take(i + 1), t, q@));
    }
    assert(coins@.take(coins@.len() as int) =~= coins@);
    r
}

fn object_label_of(o: &ObjectDisplay) -> (r: String)
    requires
        byte_len(o.object_id@) <= 12 || is_boundary(o.object_id@, 12),
    ensures
        r@ == object_label(*o),
{
    let mut s = last_segment_of(o.object_type.as_str());
    push_str(&mut s, " ");
    let id = chars_of(o.object_id.as_str());
    let (i, _) = prefix_for_bytes(&id, 12);
    let head = sub_chars(&id, 0, i);
    assert(head@ =~= id@.take(i as int));
    push_chars(&mut s, &head);
    s
}

fn object_suggestions_of(objs: &Vec<ObjectDisplay>, taken: &Vec<String>, q: &String) -> (r: Vec<
    (String, String),
>)
    requires
        object_ids_ok(objs@),
    ensures
        pairs_view(r@) == object_suggestions(objs@, taken@.map_values(|s: String| s@), q@),
{
    let ghost t = taken@.map_values(|s: String| s@);
    let mut r: Vec<(String, String)> = Vec::new();
    for i in 0..objs.len()
        invariant
            t == taken@.map_values(|s: String| s@),
            object_ids_ok(objs@),
            pairs_view(r@) == object_suggestions(objs@.take(i as int), t, q@),
    {
        proof {
            assert(objs@.take(i + 1).drop_last() =~= objs@.take(i as int));
        }
        let o = &objs[i];
        if !holds_string(taken, &o.object_id) {
            let label = object_label_of(o);
            let ll = to_lowercase(label.as_str());
            let li = to_lowercase(o.object_id.as_str());
            let lt = to_lowercase(o.object_type.as_str());
            if str_contains(ll.as_str(), q.as_str()) || str_contains(li.as_str(), q.as_str())
                || str_contains(lt.as_str(), q.as_str()) {
                r.push((label, o.object_id.clone()));
            }
        }
        assert(pairs_view(r@) =~= object_suggestions(objs@.take(i + 1), t, q@));
    }
    assert(objs@.take(objs@.len() as int) =~= objs@);
    r
}

} // verus!
