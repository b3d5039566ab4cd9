//! Portfolio summary: coins aggregated by type across all accounts, in
//! coin-type order, with per-account subtotals.

use vstd::prelude::*;
use crate::formatting::{format_balance, spec_format_balance};
use crate::seqs::first_index;
use crate::state::App;
use crate::text::{lemma_seq_lt_irrefl, lemma_seq_lt_total, lemma_seq_lt_trans, seq_lt, str_lt};
use crate::types::{CoinDisplay, PortfolioSummary};

verus! {

pub open spec fn has_type(cs: Seq<CoinDisplay>, t: Seq<char>) -> bool {
    exists|i: int| 0 <= i < cs.len() && (#[trigger] cs[i]).coin_type@ == t
}

/// Sum of the balances of the coins of type `t`.
pub open spec fn type_total(cs: Seq<CoinDisplay>, t: Seq<char>) -> nat
    decreases cs.len(),
{
    if cs.len() == 0 {
        0
    } else {
        type_total(cs.drop_last(), t) + if cs.last().coin_type@ == t {
            cs.last().balance as nat
        } else {
            0
        }
    }
}

/// Every coin type's total fits in `u128` (and so does each account's
/// share of it, which is no larger).
pub open spec fn type_totals_fit(cs: Seq<CoinDisplay>) -> bool {
    forall|t: Seq<char>| #[trigger] type_total(cs, t) <= u128::MAX
}

/// Symbol of the first coin of type `t`.
pub open spec fn first_symbol(cs: Seq<CoinDisplay>, t: Seq<char>) -> Option<String>
    decreases cs.len(),
{
    if cs.len() == 0 {
        None
    } else {
        match first_symbol(cs.drop_last(), t) {
            Some(x) => Some(x),
            None => if cs.last().coin_type@ == t {
                Some(cs.last().symbol)
            } else {
                None
            },
        }
    }
}

pub open spec fn alias_index(accts: Seq<(String, nat)>, a: Seq<char>) -> Option<nat> {
    first_index(accts.len(), |j: int| accts[j].0@ == a)
}

/// Per-account subtotals of type `t`: accounts in order of first coin.
pub open spec fn account_list(cs: Seq<CoinDisplay>, t: Seq<char>) -> Seq<(String, nat)>
    decreases cs.len(),
{
    if cs.len() == 0 {
        Seq::empty()
    } else {
        let r = account_list(cs.drop_last(), t);
        let c = cs.last();
        if c.coin_type@ != t {
            r
        } else {
            match alias_index(r, c.owner_alias@) {
                Some(j) => r.update(j as int, (r[j as int].0, r[j as int].1 + c.balance as nat)),
                None => r.push((c.owner_alias, c.balance as nat)),
            }
        }
    }
}

/// The summary rows for a list of coins: one per coin type, in increasing
/// order of type, with the first symbol seen, the total and the
/// per-account subtotals, amounts shown with nine decimals.
pub open spec fn summary_of(out: Seq<PortfolioSummary>, cs: Seq<CoinDisplay>) -> bool {
    &&& forall|a: int, b: int|
        0 <= a < b < out.len() ==> seq_lt(out[a].coin_type@, out[b].coin_type@)
    &&& forall|t: Seq<char>|
        has_type(cs, t) ==> exists|k: int| 0 <= k < out.len() && (#[trigger] out[k]).coin_type@ == t
    &&& forall|k: int|
        0 <= k < out.len() ==> {
            let row = #[trigger] out[k];
            let t = row.coin_type@;
            let accts = account_list(cs, t);
            &&& has_type(cs, t)
            &&& first_symbol(cs, t) == Some(row.symbol)
            &&& row.total_balance_display@ == spec_format_balance(type_total(cs, t), 9)
            &&& row.per_account@.len() == accts.len()
            &&& forall|m: int|
                0 <= m < accts.len() ==> (#[trigger] row.per_account@[m]).0 == accts[m].0
                    && row.per_account@[m].1@ == spec_format_balance(accts[m].1, 9)
        }
}

struct Agg {
    coin_type: String,
    symbol: String,
    total: u128,
    per_account: Vec<(String, u128)>,
}

spec fn acct_view(v: Seq<(String, u128)>) -> Seq<(String, nat)> {
    Seq::new(v.len(), |j: int| (v[j].0, v[j].1 as nat))
}

spec fn agg_ok(aggs: Seq<Agg>, ps: Seq<CoinDisplay>) -> bool {
    &&& forall|a: int, b: int|
        0 <= a < b < aggs.len() ==> seq_lt(aggs[a].coin_type@, aggs[b].coin_type@)
    &&& forall|t: Seq<char>|
        has_type(ps, t) ==> exists|k: int|
            0 <= k < aggs.len() && (#[trigger] aggs[k]).coin_type@ == t
    &&& forall|k: int|
        0 <= k < aggs.len() ==> {
            let g = #[trigger] aggs[k];
            &&& has_type(ps, g.coin_type@)
            &&& g.total == type_total(ps, g.coin_type@)
            &&& first_symbol(ps, g.coin_type@) == Some(g.symbol)
            &&& acct_view(g.per_account@) == account_list(ps, g.coin_type@)
        }
}

proof fn lemma_absent_type(ps: Seq<CoinDisplay>, t: Seq<char>)
    requires
        !has_type(ps, t),
    ensures
        type_total(ps, t) == 0,
        first_symbol(ps, t) is None,
        account_list(ps, t) == Seq::<(String, nat)>::empty(),
    decreases ps.len(),
{
    if ps.len() > 0 {
        let q = ps.drop_last();
        assert(!has_type(q, t)) by {
            if has_type(q, t) {
                let i = choose|i: int| 0 <= i < q.len() && (#[trigger] q[i]).coin_type@ == t;
                assert(ps[i] == q[i]);
            }
        }
        lemma_absent_type(q, t);
        assert(ps[ps.len() - 1] == ps.last());
    }
}

proof fn lemma_type_total_bound(ps: Seq<CoinDisplay>, t: Seq<char>)
    ensures
        forall|m: int| 0 <= m < account_list(ps, t).len() ==> (#[trigger] account_list(ps, t)[m]).1 <= type_total(ps, t),
    decreases ps.len(),
{
    if ps.len() > 0 {
        lemma_type_total_bound(ps.drop_last(), t);
        let r = account_list(ps.drop_last(), t);
        let c = ps.last();
        if c.coin_type@ == t {
            match alias_index(r, c.owner_alias@) {
                Some(j) => {
                    lemma_first_index_bound(r.len(), |j: int| r[j].0@ == c.owner_alias@);
                },
                None => {},
            }
        }
    }
}

proof fn lemma_first_index_bound(n: nat, p: spec_fn(int) -> bool)
    ensures
        first_index(n, p) matches Some(i) ==> i < n && p(i as int) && forall|j: int| 0 <= j < i ==> !#[trigger] p(j),
        first_index(n, p) is None ==> forall|j: int| 0 <= j < n ==> !#[trigger] p(j),
    decreases n,
{
    if n > 0 {
        lemma_first_index_bound((n - 1) as nat, p);
    }
}

proof fn lemma_type_total_mono(cs: Seq<CoinDisplay>, i: int, t: Seq<char>)
    requires
        0 <= i <= cs.len(),
    ensures
        type_total(cs.take(i), t) <= type_total(cs, t),
    decreases cs.len() - i,
{
    if i < cs.len() {
        lemma_type_total_mono(cs, i + 1, t);
        assert(cs.take(i + 1).drop_last() =~= cs.take(i));
    } else {
        assert(cs.take(i) =~= cs);
    }
}

/// Add one coin to the aggregates.
fn add_coin(aggs: &mut Vec<Agg>, c: &CoinDisplay, Ghost(ps): Ghost<Seq<CoinDisplay>>)
    requires
        agg_ok(old(aggs)@, ps),
        type_total(ps.push(*c), c.coin_type@) <= u128::MAX,
    ensures
        agg_ok(final(aggs)@, ps.push(*c)),
{
    let ghost qs = ps.push(*c);
    let ghost t = c.coin_type@;
    proof {
        assert(qs.drop_last() =~= ps);
        assert(qs.last() == *c);
        lemma_type_total_bound(qs, t);
        assert forall|u: Seq<char>| #![auto] has_type(ps, u) implies has_type(qs, u) by {
            let i = choose|i: int| 0 <= i < ps.len() && (#[trigger] ps[i]).coin_type@ == u;
            assert(qs[i] == ps[i]);
        }
        assert(has_type(qs, t)) by {
            assert(qs[ps.len() as int] == *c);
        }
    }
    // look for the coin's type
    let mut j: usize = 0;
    while j < aggs.len()
        invariant
            j <= aggs@.len(),
            forall|k: int| 0 <= k < j ==> (#[trigger] aggs@[k]).coin_type@ != t,
            t == c.coin_type@,
        ensures
            j <= aggs@.len(),
            forall|k: int| 0 <= k < j ==> (#[trigger] aggs@[k]).coin_type@ != t,
            j < aggs@.len() ==> aggs@[j as int].coin_type@ == t,
        decreases aggs@.len() - j,
    {
        if aggs[j].coin_type == c.coin_type {
            break ;
        }
        j = j + 1;
    }
    if j < aggs.len() {
        let ghost before = aggs@;
        let mut g = aggs.remove(j);
        proof {
            assert(g == before[j as int]);
        }
        assert(g.coin_type@ == t);
        let ghost old_accts = account_list(ps, t);
        assert(g.total + c.balance <= u128::MAX) by {
            assert(type_total(qs, t) == type_total(ps, t) + c.balance);
        }
        g.total = g.total + c.balance;
        // find the account
        let mut m: usize = 0;
        while m < g.per_account.len()
            invariant
                m <= g.per_account@.len(),
                acct_view(g.per_account@) == old_accts,
                forall|k: int| 0 <= k < m ==> (#[trigger] g.per_account@[k]).0@ != c.owner_alias@,
            ensures
                m <= g.per_account@.len(),
                forall|k: int| 0 <= k < m ==> (#[trigger] g.per_account@[k]).0@ != c.owner_alias@,
                m < g.per_account@.len() ==> g.per_account@[m as int].0@ == c.owner_alias@,
            decreases g.per_account@.len() - m,
        {
            if g.per_account[m].0 == c.owner_alias {
                break ;
            }
            m = m + 1;
        }
        proof {
            lemma_first_index_bound(old_accts.len(), |k: int| old_accts[k].0@ == c.owner_alias@);
        }
        if m < g.per_account.len() {
            proof {
                assert(acct_view(g.per_account@)[m as int] == old_accts[m as int]);
                assert(crate::seqs::first_index(m as nat, |k: int| old_accts[k].0@ == c.owner_alias@) is None) by {
                    lemma_first_index_bound(m as nat, |k: int| old_accts[k].0@ == c.owner_alias@);
                    if crate::seqs::first_index(m as nat, |k: int| old_accts[k].0@ == c.owner_alias@) is Some {
                        let i = crate::seqs::first_index(m as nat, |k: int| old_accts[k].0@ == c.owner_alias@)->0;
                        assert(acct_view(g.per_account@)[i as int] == old_accts[i as int]);
                    }
                }
                crate::seqs::lemma_first_index_found(
                    old_accts.len(),
                    |k: int| old_accts[k].0@ == c.owner_alias@,
                    m as nat,
                );
                let na = account_list(qs, t);
                assert(na[m as int].1 <= type_total(qs, t));
            }
            let (al, v) = g.per_account.remove(m);
            g.per_account.insert(m, (al, v + c.balance));
            proof {
                assert(acct_view(g.per_account@) =~= account_list(qs, t));
            }
        } else {
            proof {
                assert forall|k: int| 0 <= k < old_accts.len() implies old_accts[k].0@ != c.owner_alias@ by {
                    assert(acct_view(g.per_account@)[k] == old_accts[k]);
                }
                if alias_index(old_accts, c.owner_alias@) is Some {
                    let i = alias_index(old_accts, c.owner_alias@)->0;
                    assert(old_accts[i as int].0@ == c.owner_alias@);
                }
            }
            g.per_account.push((c.owner_alias.clone(), c.balance));
            proof {
                assert(acct_view(g.per_account@) =~= account_list(qs, t));
            }
        }
        aggs.insert(j, g);
        proof {
            assert(aggs@ =~= before.update(j as int, g));
            assert forall|k: int| 0 <= k < aggs@.len() && k != j implies ({
                let h = #[trigger] aggs@[k];
                &&& has_type(qs, h.coin_type@)
                &&& h.total == type_total(qs, h.coin_type@)
                &&& first_symbol(qs, h.coin_type@) == Some(h.symbol)
                &&& acct_view(h.per_account@) == account_list(qs, h.coin_type@)
            }) by {
                let h = aggs@[k];
                assert(h == before[k]);
                if h.coin_type@ == t {
                    lemma_seq_lt_irrefl(t);
                    if k < j {
                        assert(seq_lt(before[k].coin_type@, before[j as int].coin_type@));
                    } else {
                        assert(seq_lt(before[j as int].coin_type@, before[k].coin_type@));
                    }
                }
            }
            assert forall|u: Seq<char>| has_type(qs, u) implies exists|k: int|
                0 <= k < aggs@.len() && (#[trigger] aggs@[k]).coin_type@ == u by {
                if u == t {
                    assert(aggs@[j as int].coin_type@ == u);
                } else {
                    let i = choose|i: int| 0 <= i < qs.len() && (#[trigger] qs[i]).coin_type@ == u;
                    assert(i < ps.len());
                    assert(ps[i] == qs[i]);
                    assert(has_type(ps, u));
                    let k = choose|k: int| 0 <= k < before.len() && (#[trigger] before[k]).coin_type@ == u;
                    assert(aggs@[k] == before[k] || k == j);
                }
            }
        }
    } else {
        proof {
            assert(!has_type(ps, t)) by {
                if has_type(ps, t) {
                    let k = choose|k: int| 0 <= k < aggs@.len() && (#[trigger] aggs@[k]).coin_type@ == t;
                    assert(aggs@[k].coin_type@ != t);
                }
            }
            lemma_absent_type(ps, t);
        }
        // find the position that keeps the types in order
        let mut pos: usize = 0;
        while pos < aggs.len() && !str_lt(c.coin_type.as_str(), aggs[pos].coin_type.as_str())
            invariant
                pos <= aggs@.len(),
                forall|k: int| 0 <= k < pos ==> !seq_lt(t, (#[trigger] aggs@[k]).coin_type@),
                t == c.coin_type@,
            decreases aggs@.len() - pos,
        {
            pos = pos + 1;
        }
        let mut accts: Vec<(String, u128)> = Vec::new();
        accts.push((c.owner_alias.clone(), c.balance));
        let g = Agg {
            coin_type: c.coin_type.clone(),
            symbol: c.symbol.clone(),
            total: c.balance,
            per_account: accts,
        };
        let ghost before = aggs@;
        aggs.insert(pos, g);
        proof {
            assert(account_list(qs, t) =~= seq![(c.owner_alias, c.balance as nat)]) by {
                assert(alias_index(Seq::<(String, nat)>::empty(), c.owner_alias@) is None);
            }
            assert(acct_view(g.per_account@) =~= account_list(qs, t));
            assert forall|k: int| 0 <= k < before.len() implies seq_lt(
                (#[trigger] before[k]).coin_type@,
                t,
            ) || seq_lt(t, before[k].coin_type@) by {
                lemma_seq_lt_total(before[k].coin_type@, t);
            }
            assert forall|k: int| 0 <= k < pos implies seq_lt((#[trigger] before[k]).coin_type@, t) by {
                lemma_seq_lt_total(before[k].coin_type@, t);
            }
            assert forall|a: int, b: int|
                0 <= a < b < aggs@.len() implies seq_lt(aggs@[a].coin_type@, aggs@[b].coin_type@) by {
                if a < pos && b == pos {
                } else if a == pos && b > pos {
                    if pos < before.len() {
                        if b - 1 > pos {
                            lemma_seq_lt_trans(t, before[pos as int].coin_type@, before[b - 1].coin_type@);
                        }
                    }
                } else if a < pos && b > pos {
                    if pos < before.len() && b - 1 > pos {
                        lemma_seq_lt_trans(t, before[pos as int].coin_type@, before[b - 1].coin_type@);
                    }
                    lemma_seq_lt_trans(before[a].coin_type@, t, before[b - 1].coin_type@);
                } else if a > pos {
                    assert(aggs@[a] == before[a - 1]);
                    assert(aggs@[b] == before[b - 1]);
                } else {
                    assert(aggs@[a] == before[a]);
                    assert(aggs@[b] == before[b]);
                }
            }
            assert forall|k: int| 0 <= k < aggs@.len() implies ({
                let h = #[trigger] aggs@[k];
                &&& has_type(qs, h.coin_type@)
                &&& h.total == type_total(qs, h.coin_type@)
                &&& first_symbol(qs, h.coin_type@) == Some(h.symbol)
                &&& acct_view(h.per_account@) == account_list(qs, h.coin_type@)
            }) by {
                if k != pos {
                    let h = if k < pos { before[k] } else { before[k - 1] };
                    assert(aggs@[k] == h);
                    assert(h.coin_type@ != t);
                }
            }
            assert forall|u: Seq<char>| has_type(qs, u) implies exists|k: int|
                0 <= k < aggs@.len() && (#[trigger] aggs@[k]).coin_type@ == u by {
                if u == t {
                    assert(aggs@[pos as int].coin_type@ == u);
                } else {
                    let i = choose|i: int| 0 <= i < qs.len() && (#[trigger] qs[i]).coin_type@ == u;
                    assert(i < ps.len());
                    assert(ps[i] == qs[i]);
                    assert(has_type(ps, u));
                    let k = choose|k: int| 0 <= k < before.len() && (#[trigger] before[k]).coin_type@ == u;
                    if k < pos {
                        assert(aggs@[k] == before[k]);
                    } else {
                        assert(aggs@[k + 1] == before[k]);
                    }
                }
            }
        }
    }
}

impl App {
    /// Compute portfolio summary: aggregate coins by type across all accounts.
    pub fn compute_portfolio_summary(&mut self)
        requires
            type_totals_fit(old(self).coins@),
        ensures
            summary_of(final(self).portfolio_summary@, old(self).coins@),
            final(self).portfolio_selected == if old(self).portfolio_selected >= final(self).portfolio_summary@.len() {
                if final(self).portfolio_summary@.len() == 0 {
                    0
                } else {
                    (final(self).portfolio_summary@.len() - 1) as usize
                }
            } else {
                old(self).portfolio_selected
            },
            *final(self) == (App {
                portfolio_summary: final(self).portfolio_summary,
                portfolio_selected: final(self).portfolio_selected,
                ..*old(self)
            }),
    {
        let mut aggs: Vec<Agg> = Vec::new();
        let ghost cs = self.coins@;
        assert(cs.take(0) =~= Seq::<CoinDisplay>::empty());
        for i in 0..self.coins.len()
            invariant
                cs == self.coins@,
                type_totals_fit(cs),
                agg_ok(aggs@, cs.take(i as int)),
        {
            proof {
                assert(cs.take(i + 1) =~= cs.take(i as int).push(cs[i as int]));
                lemma_type_total_mono(cs, i + 1, cs[i as int].coin_type@);
                assert(type_total(cs, cs[i as int].coin_type@) <= u128::MAX);
            }
            add_coin(&mut aggs, &self.coins[i], Ghost(cs.take(i as int)));
        }
        assert(cs.take(cs.len() as int) =~= cs);
        let mut out: Vec<PortfolioSummary> = Vec::new();
        for k in 0..aggs.len()
            invariant
                agg_ok(aggs@, cs),
                out@.len() == k,
                forall|a: int| 0 <= a < k ==> {
                    let row = #[trigger] out@[a];
                    let g = aggs@[a];
                    &&& row.coin_type == g.coin_type
                    &&& row.symbol == g.symbol
                    &&& row.total_balance_display@ == spec_format_balance(g.total as nat, 9)
                    &&& row.per_account@.len() == g.per_account@.len()
                    &&& forall|m: int|
                        0 <= m < g.per_account@.len() ==> (#[trigger] row.per_account@[m]).0
                            == g.per_account@[m].0 && row.per_account@[m].1@ == spec_format_balance(
                            g.per_account@[m].1 as nat,
                            9,
                        )
                },
        {
            let g = &aggs[k];
            let mut per: Vec<(String, String)> = Vec::new();
            for m in 0..g.per_account.len()
                invariant
                    per@.len() == m,
                    forall|x: int|
                        0 <= x < m ==> (#[trigger] per@[x]).0 == g.per_account@[x].0 && per@[x].1@
                            == spec_format_balance(g.per_account@[x].1 as nat, 9),
            {
                let e = &g.per_account[m];
                per.push((e.0.clone(), format_balance(e.1, 9)));
            }
            out.push(
                PortfolioSummary {
                    coin_type: g.coin_type.clone(),
                    symbol: g.symbol.clone(),
                    total_balance_display: format_balance(g.total, 9),
                    per_account: per,
                },
            );
        }
        proof {
            assert forall|k: int| 0 <= k < out@.len() implies #[trigger] out@[k].coin_type@ == aggs@[k].coin_type@ by {}
            assert forall|k: int| 0 <= k < out@.len() implies {
                let row = #[trigger] out@[k];
                let accts = account_list(cs, row.coin_type@);
                forall|m: int|
                    0 <= m < accts.len() ==> (#[trigger] row.per_account@[m]).0 == accts[m].0
                        && row.per_account@[m].1@ == spec_format_balance(accts[m].1, 9)
            } by {
                let g = aggs@[k];
                assert forall|m: int| 0 <= m < g.per_account@.len() implies acct_view(g.per_account@)[m] == (g.per_account@[m].0, g.per_account@[m].1 as nat) by {}
            }
            assert forall|t: Seq<char>| has_type(cs, t) implies exists|k: int| 0 <= k < out@.len() && (#[trigger] out@[k]).coin_type@ == t by {
                let k = choose|k: int| 0 <= k < aggs@.len() && (#[trigger] aggs@[k]).coin_type@ == t;
                assert(out@[k].coin_type@ == t);
            }
        }
        self.portfolio_summary = out;
        if self.portfolio_selected >= self.portfolio_summary.len() {
            self.portfolio_selected = if self.portfolio_summary.len() == 0 {
                0
            } else {
                self.portfolio_summary.len() - 1
            };
        }
    }
}

} // verus!
