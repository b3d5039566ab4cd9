//! List queries over the application state: filtered views of coins,
//! objects and transactions, packages, the combined address book, and
//! alias resolution.

use vstd::prelude::*;
use crate::seqs::{all_indices, all_indices_vec, first_index, index_filter};
use crate::state::App;
use crate::text::{contains_seq, lowercase, owned, push_str, str_contains, str_eq, to_lowercase};
use crate::types::{AddressEntry, CoinDisplay, ObjectDisplay, TransactionDisplay};

verus! {

pub open spec fn is_package_object(o: ObjectDisplay) -> bool {
    contains_seq(o.object_type@, "package"@) || o.object_type@ == "Package"@ || o.object_type@.len()
        == 0
}

pub open spec fn coin_matches(c: CoinDisplay, q: Seq<char>) -> bool {
    contains_seq(lowercase(c.symbol@), q) || contains_seq(lowercase(c.coin_type@), q)
        || contains_seq(c.balance_display@, q)
}

pub open spec fn object_matches(o: ObjectDisplay, q: Seq<char>) -> bool {
    contains_seq(lowercase(o.object_type@), q) || contains_seq(lowercase(o.object_id@), q)
}

pub open spec fn transaction_matches(t: TransactionDisplay, q: Seq<char>) -> bool {
    contains_seq(lowercase(t.digest@), q) || contains_seq(lowercase(t.status@), q)
        || contains_seq(t.epoch@, q)
}

/// A filter is in force when it is set and not empty.
pub open spec fn filter_active(f: Option<String>) -> bool {
    f matches Some(q) && q@.len() > 0
}

pub open spec fn filter_query(f: Option<String>) -> Seq<char> {
    match f {
        Some(q) => lowercase(q@),
        None => Seq::empty(),
    }
}

/// The entry shown for a key in the combined address book.
pub open spec fn key_entry_matches(alias: Seq<char>, address: String, scheme: String, e: AddressEntry) -> bool {
    e.label@ == alias + " (key)"@ && e.address == address && e.notes == scheme
}

impl App {
    pub open spec fn spec_package_indices(&self) -> Seq<usize> {
        index_filter(self.objects@.len(), |i: int| is_package_object(self.objects@[i]))
    }

    /// Returns indices into `self.objects` for objects that look like packages.
    pub fn package_indices(&self) -> (r: Vec<usize>)
        ensures
            r@ == self.spec_package_indices(),
    {
        let mut r: Vec<usize> = Vec::new();
        for i in 0..self.objects.len()
            invariant
                r@ == index_filter(i as nat, |i: int| is_package_object(self.objects@[i])),
        {
            let t = self.objects[i].object_type.as_str();
            if str_contains(t, "package") || str_eq(t, "Package") || t.is_empty() {
                r.push(i);
            }
        }
        r
    }

    pub open spec fn spec_filtered_coins(&self) -> Seq<usize> {
        if filter_active(self.coins_filter) {
            let q = filter_query(self.coins_filter);
            index_filter(self.coins@.len(), |i: int| coin_matches(self.coins@[i], q))
        } else {
            all_indices(self.coins@.len())
        }
    }

    /// Returns indices into `self.coins` matching the current filter.
    pub fn filtered_coins(&self) -> (r: Vec<usize>)
        ensures
            r@ == self.spec_filtered_coins(),
    {
        let q = match &self.coins_filter {
            Some(q) => q,
            None => return all_indices_vec(self.coins.len()),
        };
        if q.as_str().is_empty() {
            return all_indices_vec(self.coins.len());
        }
        let ql = to_lowercase(q.as_str());
        let ghost qs = ql@;
        let mut r: Vec<usize> = Vec::new();
        for i in 0..self.coins.len()
            invariant
                qs == ql@,
                qs == filter_query(self.coins_filter),
                r@ == index_filter(i as nat, |i: int| coin_matches(self.coins@[i], qs)),
        {
            let c = &self.coins[i];
            let sym = to_lowercase(c.symbol.as_str());
            let ty = to_lowercase(c.coin_type.as_str());
            if str_contains(sym.as_str(), ql.as_str()) || str_contains(ty.as_str(), ql.as_str())
                || str_contains(c.balance_display.as_str(), ql.as_str()) {
                r.push(i);
            }
        }
        r
    }

    pub open spec fn spec_filtered_objects(&self) -> Seq<usize> {
        if filter_active(self.objects_filter) {
            let q = filter_query(self.objects_filter);
            index_filter(self.objects@.len(), |i: int| object_matches(self.objects@[i], q))
        } else {
            all_indices(self.objects@.len())
        }
    }

    /// Returns indices into `self.objects` matching the current filter.
    pub fn filtered_objects(&self) -> (r: Vec<usize>)
        ensures
            r@ == self.spec_filtered_objects(),
    {
        let q = match &self.objects_filter {
            Some(q) => q,
            None => return all_indices_vec(self.objects.len()),
        };
        if q.as_str().is_empty() {
            return all_indices_vec(self.objects.len());
        }
        let ql = to_lowercase(q.as_str());
        let ghost qs = ql@;
        let mut r: Vec<usize> = Vec::new();
        for i in 0..self.objects.len()
            invariant
                qs == ql@,
                qs == filter_query(self.objects_filter),
                r@ == index_filter(i as nat, |i: int| object_matches(self.objects@[i], qs)),
        {
            let o = &self.objects[i];
            let ty = to_lowercase(o.object_type.as_str());
            let id = to_lowercase(o.object_id.as_str());
            if str_contains(ty.as_str(), ql.as_str()) || str_contains(id.as_str(), ql.as_str()) {
                r.push(i);
            }
        }
        r
    }

    pub open spec fn spec_filtered_transactions(&self) -> Seq<usize> {
        if filter_active(self.transactions_filter) {
            let q = filter_query(self.transactions_filter);
            index_filter(
                self.transactions@.len(),
                |i: int| transaction_matches(self.transactions@[i], q),
            )
        } else {
            all_indices(self.transactions@.len())
        }
    }

    /// Returns indices into `self.transactions` matching the current filter.
    pub fn filtered_transactions(&self) -> (r: Vec<usize>)
        ensures
            r@ == self.spec_filtered_transactions(),
    {
        let q = match &self.transactions_filter {
            Some(q) => q,
            None => return all_indices_vec(self.transactions.len()),
        };
        if q.as_str().is_empty() {
            return all_indices_vec(self.transactions.len());
        }
        let ql = to_lowercase(q.as_str());
        let ghost qs = ql@;
        let mut r: Vec<usize> = Vec::new();
        for i in 0..self.transactions.len()
            invariant
                qs == ql@,
                qs == filter_query(self.transactions_filter),
                r@ == index_filter(
                    i as nat,
                    |i: int| transaction_matches(self.transactions@[i], qs),
                ),
        {
            let t = &self.transactions[i];
            let d = to_lowercase(t.digest.as_str());
            let st = to_lowercase(t.status.as_str());
            if str_contains(d.as_str(), ql.as_str()) || str_contains(st.as_str(), ql.as_str())
                || str_contains(t.epoch.as_str(), ql.as_str()) {
                r.push(i);
            }
        }
        r
    }

    /// Returns combined address book: keys first (read-only), then user entries.
    pub fn combined_address_book(&self) -> (r: Vec<AddressEntry>)
        ensures
            r@.len() == self.keys@.len() + self.address_book@.len(),
            forall|i: int|
                0 <= i < self.keys@.len() ==> key_entry_matches(
                    self.keys@[i].alias@,
                    self.keys@[i].address,
                    self.keys@[i].scheme,
                    #[trigger] r@[i],
                ),
            r@.skip(self.keys@.len() as int) == self.address_book@,
    {
        let mut r: Vec<AddressEntry> = Vec::new();
        for i in 0..self.keys.len()
            invariant
                r@.len() == i,
                forall|j: int|
                    0 <= j < i ==> key_entry_matches(
                        self.keys@[j].alias@,
                        self.keys@[j].address,
                        self.keys@[j].scheme,
                        #[trigger] r@[j],
                    ),
        {
            let k = &self.keys[i];
            let mut label = owned(k.alias.as_str());
            push_str(&mut label, " (key)");
            r.push(AddressEntry { label, address: k.address.clone(), notes: k.scheme.clone() });
        }
        let nk = r.len();
        for i in 0..self.address_book.len()
            invariant
                nk == self.keys@.len(),
                r@.len() == nk + i,
                forall|j: int|
                    0 <= j < nk ==> key_entry_matches(
                        self.keys@[j].alias@,
                        self.keys@[j].address,
                        self.keys@[j].scheme,
                        #[trigger] r@[j],
                    ),
                r@.skip(nk as int) == self.address_book@.take(i as int),
        {
            let ghost before = r@;
            r.push(self.address_book[i].clone());
            proof {
                assert(r@.skip(nk as int) =~= self.address_book@.take(i + 1));
                assert forall|j: int| 0 <= j < nk implies r@[j] == before[j] by {}
            }
        }
        assert(self.address_book@.take(self.address_book@.len() as int) =~= self.address_book@);
        r
    }

    /// Convert a combined address book index to a user address book index.
    /// Returns None if the index points to a key entry (read-only).
    pub fn user_address_index(&self, combined_idx: usize) -> (r: Option<usize>)
        ensures
            r == if combined_idx >= self.keys@.len() {
                Some((combined_idx - self.keys@.len()) as usize)
            } else {
                None
            },
    {
        let key_count = self.key_entry_count();
        if combined_idx >= key_count {
            Some(combined_idx - key_count)
        } else {
            None
        }
    }

    /// `resolve_address`: the address of the first key whose alias matches
    /// (ignoring case), else of the first address book entry whose label
    /// matches, else the input itself.
    pub open spec fn spec_resolve_address(&self, input: Seq<char>) -> Seq<char> {
        let l = lowercase(input);
        match first_index(self.keys@.len(), |i: int| lowercase(self.keys@[i].alias@) == l) {
            Some(i) => self.keys@[i as int].address@,
            None => match first_index(
                self.address_book@.len(),
                |i: int| lowercase(self.address_book@[i].label@) == l,
            ) {
                Some(i) => self.address_book@[i as int].address@,
                None => input,
            },
        }
    }

    /// Resolve an alias or label to an address.
    pub fn resolve_address(&self, input: &str) -> (r: String)
        ensures
            r@ == self.spec_resolve_address(input@),
    {
        let input_lower = to_lowercase(input);
        let ghost l = input_lower@;
        for i in 0..self.keys.len()
            invariant
                l == input_lower@,
                l == lowercase(input@),
                first_index(i as nat, |i: int| lowercase(self.keys@[i].alias@) == l) is None,
        {
            let a = to_lowercase(self.keys[i].alias.as_str());
            if str_eq(a.as_str(), input_lower.as_str()) {
                proof {
                    crate::seqs::lemma_first_index_found(
                        self.keys@.len(),
                        |i: int| lowercase(self.keys@[i].alias@) == l,
                        i as nat,
                    );
                }
                return self.keys[i].address.clone();
            }
        }
        for i in 0..self.address_book.len()
            invariant
                l == input_lower@,
                l == lowercase(input@),
                first_index(self.keys@.len(), |i: int| lowercase(self.keys@[i].alias@) == l) is None,
                first_index(i as nat, |i: int| lowercase(self.address_book@[i].label@) == l) is None,
        {
            let a = to_lowercase(self.address_book[i].label.as_str());
            if str_eq(a.as_str(), input_lower.as_str()) {
                proof {
                    crate::seqs::lemma_first_index_found(
                        self.address_book@.len(),
                        |i: int| lowercase(self.address_book@[i].label@) == l,
                        i as nat,
                    );
                }
                return self.address_book[i].address.clone();
            }
        }
        owned(input)
    }
}

/// Resolving text that is some key's alias (ignoring case) gives the
/// address of the first such key.
pub proof fn lemma_resolve_key_alias(app: App, input: Seq<char>, i: int)
    requires
        0 <= i < app.keys@.len(),
        lowercase(app.keys@[i].alias@) == lowercase(input),
        forall|k: int| 0 <= k < i ==> lowercase(#[trigger] app.keys@[k].alias@) != lowercase(input),
    ensures
        app.spec_resolve_address(input) == app.keys@[i].address@,
{
    let l = lowercase(input);
    let p = |k: int| lowercase(app.keys@[k].alias@) == l;
    crate::seqs::lemma_first_index_absent(i as nat, p);
    crate::seqs::lemma_first_index_found(app.keys@.len(), p, i as nat);
}

/// Resolving text that is no key's alias but some address-book label
/// (ignoring case) gives the address of the first entry with that label.
pub proof fn lemma_resolve_book_label(app: App, input: Seq<char>, j: int)
    requires
        forall|k: int| 0 <= k < app.keys@.len() ==> lowercase(#[trigger] app.keys@[k].alias@) != lowercase(input),
        0 <= j < app.address_book@.len(),
        lowercase(app.address_book@[j].label@) == lowercase(input),
        forall|k: int| 0 <= k < j ==> lowercase(#[trigger] app.address_book@[k].label@) != lowercase(input),
    ensures
        app.spec_resolve_address(input) == app.address_book@[j].address@,
{
    let l = lowercase(input);
    let p = |k: int| lowercase(app.keys@[k].alias@) == l;
    let q = |k: int| lowercase(app.address_book@[k].label@) == l;
    crate::seqs::lemma_first_index_absent(app.keys@.len(), p);
    crate::seqs::lemma_first_index_absent(j as nat, q);
    crate::seqs::lemma_first_index_found(app.address_book@.len(), q, j as nat);
}

/// Text that is neither a key's alias nor an address-book label resolves
/// to itself.
pub proof fn lemma_resolve_unknown(app: App, input: Seq<char>)
    requires
        forall|k: int| 0 <= k < app.keys@.len() ==> lowercase(#[trigger] app.keys@[k].alias@) != lowercase(input),
        forall|k: int|
            0 <= k < app.address_book@.len() ==> lowercase(#[trigger] app.address_book@[k].label@) != lowercase(input),
    ensures
        app.spec_resolve_address(input) == input,
{
    let l = lowercase(input);
    crate::seqs::lemma_first_index_absent(app.keys@.len(), |k: int| lowercase(app.keys@[k].alias@) == l);
    crate::seqs::lemma_first_index_absent(
        app.address_book@.len(),
        |k: int| lowercase(app.address_book@[k].label@) == l,
    );
}

/// With a filter in force, the transactions listed are, in order, exactly
/// those whose digest or status (ignoring case) or epoch contains the
/// query (lowercased); with none, all of them.
pub proof fn lemma_filtered_transactions_law(app: App)
    requires
        app.transactions@.len() <= usize::MAX,
    ensures
        ({
            let r = app.spec_filtered_transactions();
            let ts = app.transactions@;
            if app.transactions_filter is Some && app.transactions_filter->0@.len() > 0 {
                let q = lowercase(app.transactions_filter->0@);
                &&& forall|k: int| 0 <= k < r.len() ==> (#[trigger] r[k]) < ts.len() && (
                    contains_seq(lowercase(ts[r[k] as int].digest@), q) || contains_seq(
                        lowercase(ts[r[k] as int].status@),
                        q,
                    ) || contains_seq(ts[r[k] as int].epoch@, q))
                &&& forall|i: int|
                    0 <= i < ts.len() && (contains_seq(lowercase(ts[i].digest@), q)
                        || contains_seq(lowercase(#[trigger] ts[i].status@), q) || contains_seq(
                        ts[i].epoch@,
                        q,
                    )) ==> r.contains(i as usize)
                &&& forall|a: int, b: int| 0 <= a < b < r.len() ==> r[a] < r[b]
            } else {
                &&& r.len() == ts.len()
                &&& forall|k: int| 0 <= k < r.len() ==> r[k] == k
            }
        }),
{
    let ts = app.transactions@;
    let r = app.spec_filtered_transactions();
    if filter_active(app.transactions_filter) {
        let q = filter_query(app.transactions_filter);
        let p = |i: int| transaction_matches(ts[i], q);
        crate::seqs::lemma_index_filter_members(ts.len(), p);
        assert(r == crate::seqs::index_filter(ts.len(), p));
        assert forall|k: int| 0 <= k < r.len() implies (#[trigger] r[k]) < ts.len()
            && transaction_matches(ts[r[k] as int], q) by {
            assert(p(r[k] as int));
        }
        assert forall|i: int| 0 <= i < ts.len() && transaction_matches(ts[i], q) implies r.contains(
            i as usize,
        ) by {
            assert(p(i));
        }
    }
}

/// With a filter in force, the coins listed are, in order, exactly those
/// whose symbol or type (ignoring case) or shown balance contains the
/// query (lowercased).
pub proof fn lemma_filtered_coins_law(app: App)
    requires
        app.coins@.len() <= usize::MAX,
        app.coins_filter matches Some(f) && f@.len() > 0,
    ensures
        ({
            let r = app.spec_filtered_coins();
            let cs = app.coins@;
            let q = lowercase(app.coins_filter->0@);
            &&& forall|k: int| 0 <= k < r.len() ==> (#[trigger] r[k]) < cs.len() && (
                contains_seq(lowercase(cs[r[k] as int].symbol@), q) || contains_seq(
                    lowercase(cs[r[k] as int].coin_type@),
                    q,
                ) || contains_seq(cs[r[k] as int].balance_display@, q))
            &&& forall|i: int|
                0 <= i < cs.len() && (contains_seq(lowercase(#[trigger] cs[i].symbol@), q)
                    || contains_seq(lowercase(cs[i].coin_type@), q) || contains_seq(
                    cs[i].balance_display@,
                    q,
                )) ==> r.contains(i as usize)
            &&& forall|a: int, b: int| 0 <= a < b < r.len() ==> r[a] < r[b]
        }),
{
    let q = filter_query(app.coins_filter);
    let cs = app.coins@;
    let r = app.spec_filtered_coins();
    let p = |i: int| coin_matches(cs[i], q);
    crate::seqs::lemma_index_filter_members(cs.len(), p);
    assert(r == crate::seqs::index_filter(cs.len(), p));
    assert forall|k: int| 0 <= k < r.len() implies (#[trigger] r[k]) < cs.len() && coin_matches(
        cs[r[k] as int],
        q,
    ) by {
        assert(p(r[k] as int));
    }
    assert forall|i: int| 0 <= i < cs.len() && coin_matches(cs[i], q) implies r.contains(i as usize) by {
        assert(p(i));
    }
}

/// With a filter in force, the objects listed are, in order, exactly those
/// whose type or id (ignoring case) contains the query (lowercased).
pub proof fn lemma_filtered_objects_law(app: App)
    requires
        app.objects@.len() <= usize::MAX,
        app.objects_filter matches Some(f) && f@.len() > 0,
    ensures
        ({
            let r = app.spec_filtered_objects();
            let os = app.objects@;
            let q = lowercase(app.objects_filter->0@);
            &&& forall|k: int| 0 <= k < r.len() ==> (#[trigger] r[k]) < os.len() && (
                contains_seq(lowercase(os[r[k] as int].object_type@), q) || contains_seq(
                    lowercase(os[r[k] as int].object_id@),
                    q,
                ))
            &&& forall|i: int|
                0 <= i < os.len() && (contains_seq(lowercase(#[trigger] os[i].object_type@), q)
                    || contains_seq(lowercase(os[i].object_id@), q)) ==> r.contains(i as usize)
            &&& forall|a: int, b: int| 0 <= a < b < r.len() ==> r[a] < r[b]
        }),
{
    let q = filter_query(app.objects_filter);
    let os = app.objects@;
    let r = app.spec_filtered_objects();
    let p = |i: int| object_matches(os[i], q);
    crate::seqs::lemma_index_filter_members(os.len(), p);
    assert(r == crate::seqs::index_filter(os.len(), p));
    assert forall|k: int| 0 <= k < r.len() implies (#[trigger] r[k]) < os.len() && object_matches(
        os[r[k] as int],
        q,
    ) by {
        assert(p(r[k] as int));
    }
    assert forall|i: int| 0 <= i < os.len() && object_matches(os[i], q) implies r.contains(i as usize) by {
        assert(p(i));
    }
}

} // verus!
