//! Amount formatting and parsing: raw balances with a number of decimals,
//! IOTA amounts in nanos (1 IOTA = 10^9 nanos).

use vstd::prelude::*;
use crate::text::{
    all_digits, chars_of, dec, dec_padded, digits_value, lemma_dec_len, lemma_dec_len_bound,
    lemma_pow10_positive, pow10, push_char, push_dec, push_dec_padded, push_str, trim_end, zeros,
};

verus! {

/// Nanos per IOTA.
pub const NANOS_PER_IOTA: u128 = 1_000_000_000;

// ── Specifications ────────────────────────────────────────────────

/// `format_balance`: whole part, a dot, and the fractional digits with
/// trailing zeros trimmed but at least two kept (no dot when `decimals == 0`).
pub open spec fn spec_format_balance(raw: nat, decimals: nat) -> Seq<char> {
    let d = pow10(decimals);
    let whole = raw / d;
    let frac = raw % d;
    if decimals == 0 {
        dec(whole)
    } else {
        let fs = dec_padded(frac, decimals);
        let t = trim_end(fs, '0');
        let min_width: nat = if fs.len() < 2 { fs.len() } else { 2 };
        let shown = if t.len() < min_width { fs.take(min_width as int) } else { t };
        dec(whole) + seq!['.'] + shown
    }
}

/// The fractional digits of an IOTA amount, without trailing zeros.
pub open spec fn iota_frac_digits(nanos: nat) -> Seq<char> {
    trim_end(dec_padded(nanos % 1_000_000_000, 9), '0')
}

/// `format_iota`: whole IOTA, then a dot and the fractional digits when
/// the amount is not a whole number of IOTA.
pub open spec fn spec_format_iota(nanos: nat) -> Seq<char> {
    if nanos % 1_000_000_000 == 0 {
        dec(nanos / 1_000_000_000)
    } else {
        dec(nanos / 1_000_000_000) + seq!['.'] + iota_frac_digits(nanos)
    }
}

/// `format_nanos`: like `format_iota`, followed by the unit.
pub open spec fn spec_format_nanos(nanos: nat) -> Seq<char> {
    if iota_frac_digits(nanos).len() == 0 {
        dec(nanos / 1_000_000_000) + seq![' ', 'I', 'O', 'T', 'A']
    } else {
        dec(nanos / 1_000_000_000) + seq!['.'] + iota_frac_digits(nanos) + seq![
            ' ',
            'I',
            'O',
            'T',
            'A',
        ]
    }
}

/// Index of the first `'.'` in `s`, or `s.len()` when there is none.
pub open spec fn dot_pos(s: Seq<char>) -> nat
    decreases s.len(),
{
    if s.len() == 0 {
        0
    } else if s[0] == '.' {
        0
    } else {
        1 + dot_pos(s.drop_first())
    }
}

pub open spec fn amount_negative(s: Seq<char>) -> bool {
    s.len() > 0 && s[0] == '-'
}

/// The amount without its sign.
pub open spec fn amount_body(s: Seq<char>) -> Seq<char> {
    if s.len() > 0 && (s[0] == '+' || s[0] == '-') {
        s.drop_first()
    } else {
        s
    }
}

pub open spec fn int_part(b: Seq<char>) -> Seq<char> {
    b.take(dot_pos(b) as int)
}

pub open spec fn frac_part(b: Seq<char>) -> Seq<char> {
    if dot_pos(b) < b.len() {
        b.skip(dot_pos(b) + 1int)
    } else {
        Seq::empty()
    }
}

/// A decimal IOTA amount: optional sign, digits, optionally a dot and more
/// digits, with at least one digit in all.
pub open spec fn valid_amount(s: Seq<char>) -> bool {
    let b = amount_body(s);
    &&& all_digits(int_part(b))
    &&& all_digits(frac_part(b))
    &&& int_part(b).len() + frac_part(b).len() >= 1
}

/// Nanos given by fractional IOTA digits (digits past the ninth are dropped).
pub open spec fn frac_nanos(f: Seq<char>) -> nat {
    let k: nat = if f.len() < 9 { f.len() } else { 9 };
    digits_value(f.take(k as int)) * pow10((9 - k) as nat)
}

/// The exact number of nanos a valid unsigned amount denotes, truncated
/// to whole nanos.
pub open spec fn amount_nanos(s: Seq<char>) -> nat {
    let b = amount_body(s);
    digits_value(int_part(b)) * 1_000_000_000 + frac_nanos(frac_part(b))
}

/// `parse_iota_amount`: `None` for text that is not a decimal amount;
/// otherwise the amount in nanos, 0 for a negative amount, and saturated
/// at `u64::MAX`.
pub open spec fn spec_parse_iota_amount(s: Seq<char>) -> Option<u64> {
    if !valid_amount(s) {
        None
    } else if amount_negative(s) {
        Some(0)
    } else if amount_nanos(s) > u64::MAX {
        Some(u64::MAX)
    } else {
        Some(amount_nanos(s) as u64)
    }
}

// ── Helpers ───────────────────────────────────────────────────────

proof fn lemma_trim_end_step(s: Seq<char>, c: char)
    requires
        s.len() > 0,
        s.last() == c,
    ensures
        trim_end(s, c) == trim_end(s.drop_last(), c),
{
}

/// Number of characters left after trimming the trailing `c`s.
fn trimmed_len(v: &Vec<char>, c: char) -> (k: usize)
    ensures
        k <= v@.len(),
        v@.take(k as int) == trim_end(v@, c),
{
    let mut k = v.len();
    assert(v@.take(k as int) =~= v@);
    while k > 0 && v[k - 1] == c
        invariant
            k <= v@.len(),
            trim_end(v@, c) == trim_end(v@.take(k as int), c),
        decreases k,
    {
        proof {
            let t = v@.take(k as int);
            assert(t.drop_last() =~= v@.take(k - 1));
            lemma_trim_end_step(t, c);
        }
        k = k - 1;
    }
    proof {
        if k == 0 {
            assert(v@.take(0) =~= Seq::<char>::empty());
        }
    }
    k
}

/// Characters of `n` padded with zeros to `width`.
fn padded_chars(n: u128, width: usize) -> (v: Vec<char>)
    ensures
        v@ == dec_padded(n as nat, width as nat),
{
    let mut s = String::new();
    push_dec_padded(&mut s, n, width);
    assert(Seq::<char>::empty() + dec_padded(n as nat, width as nat) =~= dec_padded(
        n as nat,
        width as nat,
    ));
    chars_of(s.as_str())
}

/// Appends the first `k` characters of `v`.
fn push_prefix(s: &mut String, v: &Vec<char>, k: usize)
    requires
        k <= v@.len(),
    ensures
        final(s)@ == old(s)@ + v@.take(k as int),
{
    let ghost start = s@;
    for i in 0..k
        invariant
            k <= v@.len(),
            s@ == start + v@.take(i as int),
    {
        push_char(s, v[i]);
        proof {
            assert(v@.take(i + 1) =~= v@.take(i as int).push(v@[i as int]));
        }
    }
}

fn pow10_u128(k: u32) -> (p: u128)
    requires
        k <= 38,
    ensures
        p as nat == pow10(k as nat),
{
    let mut p: u128 = 1;
    let mut i: u32 = 0;
    while i < k
        invariant
            i <= k <= 38,
            p as nat == pow10(i as nat),
        decreases k - i,
    {
        proof {
            lemma_pow10_38(i as nat);
        }
        p = p * 10;
        i = i + 1;
    }
    p
}

proof fn lemma_pow10_38(i: nat)
    requires
        i < 38,
    ensures
        pow10(i) * 10 <= pow10(38),
        pow10(38) == 100_000_000_000_000_000_000_000_000_000_000_000_000,
{
    lemma_pow10_mono(i + 1, 38);
    lemma_pow10_38_value();
}

proof fn lemma_pow10_38_value()
    ensures
        pow10(38) == 100_000_000_000_000_000_000_000_000_000_000_000_000,
{
    assert(pow10(0) == 1);
    assert(pow10(1) == 10);
    assert(pow10(2) == 100);
    assert(pow10(3) == 1000);
    assert(pow10(4) == 10000);
    assert(pow10(5) == 100000);
    assert(pow10(6) == 1000000);
    assert(pow10(7) == 10000000);
    assert(pow10(8) == 100000000);
    assert(pow10(9) == 1000000000);
    assert(pow10(10) == 10000000000);
    assert(pow10(11) == 100000000000);
    assert(pow10(12) == 1000000000000);
    assert(pow10(13) == 10000000000000);
    assert(pow10(14) == 100000000000000);
    assert(pow10(15) == 1000000000000000);
    assert(pow10(16) == 10000000000000000);
    assert(pow10(17) == 100000000000000000);
    assert(pow10(18) == 1000000000000000000);
    assert(pow10(19) == 10000000000000000000);
    assert(pow10(20) == 100000000000000000000);
    assert(pow10(21) == 1000000000000000000000);
    assert(pow10(22) == 10000000000000000000000);
    assert(pow10(23) == 100000000000000000000000);
    assert(pow10(24) == 1000000000000000000000000);
    assert(pow10(25) == 10000000000000000000000000);
    assert(pow10(26) == 100000000000000000000000000);
    assert(pow10(27) == 1000000000000000000000000000);
    assert(pow10(28) == 10000000000000000000000000000);
    assert(pow10(29) == 100000000000000000000000000000);
    assert(pow10(30) == 1000000000000000000000000000000);
    assert(pow10(31) == 10000000000000000000000000000000);
    assert(pow10(32) == 100000000000000000000000000000000);
    assert(pow10(33) == 1000000000000000000000000000000000);
    assert(pow10(34) == 10000000000000000000000000000000000);
    assert(pow10(35) == 100000000000000000000000000000000000);
    assert(pow10(36) == 1000000000000000000000000000000000000);
    assert(pow10(37) == 10000000000000000000000000000000000000);
    assert(pow10(38) == 100000000000000000000000000000000000000);
}

pub proof fn lemma_pow10_add(a: nat, b: nat)
    ensures
        pow10(a + b) == pow10(a) * pow10(b),
    decreases a,
{
    if a > 0 {
        lemma_pow10_add((a - 1) as nat, b);
        let x = pow10((a - 1) as nat);
        let y = pow10(b);
        assert(pow10(a + b) == 10 * pow10((a - 1 + b) as nat));
        assert(pow10(a) == 10 * x);
        assert(10 * (x * y) == (10 * x) * y) by (nonlinear_arith);
    } else {
        assert(pow10(0) == 1);
        assert(a + b == b);
    }
}

pub proof fn lemma_pow10_mono(a: nat, b: nat)
    requires
        a <= b,
    ensures
        pow10(a) <= pow10(b),
    decreases b,
{
    lemma_pow10_positive(b);
    if a < b {
        lemma_pow10_mono(a, (b - 1) as nat);
    }
}

// ── Formatting ────────────────────────────────────────────────────

/// Format a raw balance (in smallest unit) as a human-readable string.
pub fn format_balance(raw: u128, decimals: u32) -> (s: String)
    requires
        decimals <= 38,
    ensures
        s@ == spec_format_balance(raw as nat, decimals as nat),
{
    let divisor = pow10_u128(decimals);
    proof {
        lemma_pow10_positive(decimals as nat);
    }
    let whole = raw / divisor;
    let frac = raw % divisor;
    let mut s = String::new();
    push_dec(&mut s, whole);
    if decimals == 0 {
        assert(s@ =~= dec(whole as nat));
        return s;
    }
    let fs = padded_chars(frac, decimals as usize);
    let t = trimmed_len(&fs, '0');
    let min_width: usize = if fs.len() < 2 { fs.len() } else { 2 };
    push_char(&mut s, '.');
    if t < min_width {
        push_prefix(&mut s, &fs, min_width);
    } else {
        push_prefix(&mut s, &fs, t);
    }
    assert(s@ =~= spec_format_balance(raw as nat, decimals as nat));
    s
}

/// Appends `nanos` as whole IOTA with the fractional digits trimmed.
fn push_iota(s: &mut String, nanos: u128)
    ensures
        final(s)@ == old(s)@ + spec_format_iota(nanos as nat),
{
    let ghost start = s@;
    let whole = nanos / NANOS_PER_IOTA;
    let frac = nanos % NANOS_PER_IOTA;
    push_dec(s, whole);
    if frac != 0 {
        let fs = padded_chars(frac, 9);
        let t = trimmed_len(&fs, '0');
        push_char(s, '.');
        push_prefix(s, &fs, t);
    }
    assert(s@ =~= start + spec_format_iota(nanos as nat));
}

/// Format nanos as a human-readable IOTA amount.
pub fn format_iota(nanos: u128) -> (s: String)
    ensures
        s@ == spec_format_iota(nanos as nat),
{
    let mut s = String::new();
    push_iota(&mut s, nanos);
    assert(s@ =~= spec_format_iota(nanos as nat));
    s
}

/// Format nanos as IOTA followed by the unit name.
pub fn format_nanos(nanos: u128) -> (s: String)
    ensures
        s@ == spec_format_nanos(nanos as nat),
{
    let whole = nanos / NANOS_PER_IOTA;
    let frac = nanos % NANOS_PER_IOTA;
    let fs = padded_chars(frac, 9);
    let t = trimmed_len(&fs, '0');
    let mut s = String::new();
    push_dec(&mut s, whole);
    if t != 0 {
        push_char(&mut s, '.');
        push_prefix(&mut s, &fs, t);
    }
    push_str(&mut s, " IOTA");
    proof {
        reveal_strlit(" IOTA");
    }
    assert(s@ =~= spec_format_nanos(nanos as nat));
    s
}

// ── Parsing ───────────────────────────────────────────────────────

proof fn lemma_dot_pos(b: Seq<char>, k: int)
    requires
        0 <= k <= b.len(),
        forall|j: int| 0 <= j < k ==> b[j] != '.',
        k == b.len() || b[k] == '.',
    ensures
        dot_pos(b) == k,
    decreases b.len(),
{
    if b.len() > 0 && b[0] != '.' {
        assert forall|j: int| 0 <= j < k - 1 implies b.drop_first()[j] != '.' by {
            assert(b.drop_first()[j] == b[j + 1]);
        }
        lemma_dot_pos(b.drop_first(), k - 1);
    }
}

proof fn lemma_digits_push(x: Seq<char>, c: char)
    ensures
        digits_value(x.push(c)) == digits_value(x) * 10 + crate::text::digit_value(c),
{
    assert(x.push(c).drop_last() =~= x);
}

pub proof fn lemma_digits_value_bound(x: Seq<char>)
    requires
        all_digits(x),
    ensures
        digits_value(x) < pow10(x.len()),
    decreases x.len(),
{
    if x.len() > 0 {
        let y = x.drop_last();
        assert(all_digits(y)) by {
            assert forall|i: int| 0 <= i < y.len() implies crate::text::is_digit(#[trigger] y[i]) by {
                assert(y[i] == x[i]);
            }
        }
        lemma_digits_value_bound(y);
        assert(crate::text::is_digit(x[x.len() - 1]));
        let a = digits_value(y);
        let p = pow10(y.len());
        let dv = crate::text::digit_value(x.last());
        assert(a * 10 + dv < p * 10) by (nonlinear_arith)
            requires
                a < p,
                dv < 10,
        ;
    }
}

/// 2^64: the bound beyond which an integer part no longer matters.
const AMOUNT_CAP: u128 = 18_446_744_073_709_551_616;

/// The value of the digits `v[lo..hi]`, capped at `AMOUNT_CAP`; `None`
/// when one of them is not a digit.
fn capped_digits(v: &Vec<char>, lo: usize, hi: usize) -> (r: Option<u128>)
    requires
        lo <= hi <= v@.len(),
    ensures
        r is Some <==> all_digits(v@.subrange(lo as int, hi as int)),
        r matches Some(a) ==> a as nat == (if digits_value(v@.subrange(lo as int, hi as int))
            < AMOUNT_CAP {
            digits_value(v@.subrange(lo as int, hi as int))
        } else {
            AMOUNT_CAP as nat
        }),
{
    let ghost ip = v@.subrange(lo as int, hi as int);
    let mut acc: u128 = 0;
    let mut i: usize = lo;
    assert(ip.take(0) =~= Seq::<char>::empty());
    while i < hi
        invariant
            lo <= i <= hi <= v@.len(),
            ip == v@.subrange(lo as int, hi as int),
            all_digits(ip.take(i - lo)),
            acc as nat == (if digits_value(ip.take(i - lo)) < AMOUNT_CAP {
                digits_value(ip.take(i - lo))
            } else {
                AMOUNT_CAP as nat
            }),
        decreases hi - i,
    {
        let c = v[i];
        if !('0' <= c && c <= '9') {
            proof {
                assert(ip[i - lo] == c);
            }
            return None;
        }
        let dv = (c as u32 - 48) as u128;
        proof {
            let x = ip.take(i - lo);
            assert(ip.take(i - lo + 1) =~= x.push(c));
            lemma_digits_push(x, c);
        }
        let next = acc * 10 + dv;
        acc = if next < AMOUNT_CAP { next } else { AMOUNT_CAP };
        i = i + 1;
    }
    assert(ip.take(hi - lo) =~= ip);
    Some(acc)
}

/// Nanos given by the fractional digits `v[lo..hi]`; `None` when one of
/// them is not a digit.
fn frac_digits_nanos(v: &Vec<char>, lo: usize, hi: usize) -> (r: Option<u128>)
    requires
        lo <= hi <= v@.len(),
    ensures
        r is Some <==> all_digits(v@.subrange(lo as int, hi as int)),
        r matches Some(f) ==> f as nat == frac_nanos(v@.subrange(lo as int, hi as int)),
        r matches Some(f) ==> f < 1_000_000_000,
{
    let ghost fp = v@.subrange(lo as int, hi as int);
    let mut facc: u128 = 0;
    let mut cnt: usize = 0;
    let mut j: usize = lo;
    assert(fp.take(0) =~= Seq::<char>::empty());
    proof {
        reveal_with_fuel(pow10, 10);
    }
    while j < hi
        invariant
            lo <= j <= hi <= v@.len(),
            fp == v@.subrange(lo as int, hi as int),
            all_digits(fp.take(j - lo)),
            cnt as int == (if j - lo < 9 { j - lo } else { 9 }),
            facc as nat == digits_value(fp.take(cnt as int)),
            (facc as nat) < pow10(cnt as nat),
            pow10(9) == 1_000_000_000,
        decreases hi - j,
    {
        let c = v[j];
        if !('0' <= c && c <= '9') {
            proof {
                assert(fp[j - lo] == c);
            }
            return None;
        }
        proof {
            assert(fp.take(j - lo + 1) =~= fp.take(j - lo).push(c));
        }
        if cnt < 9 {
            let dv = (c as u32 - 48) as u128;
            proof {
                let x = fp.take(cnt as int);
                assert(fp.take(cnt + 1) =~= x.push(c));
                lemma_digits_push(x, c);
                let a = facc as nat;
                let pw = pow10(cnt as nat);
                assert(pow10(cnt as nat + 1) == 10 * pw);
                assert(a * 10 + dv < pw * 10) by (nonlinear_arith)
                    requires
                        a < pw,
                        dv < 10,
                ;
                lemma_pow10_mono(cnt as nat + 1, 9);
            }
            facc = facc * 10 + dv;
            cnt = cnt + 1;
        }
        j = j + 1;
    }
    assert(fp.take(hi - lo) =~= fp);
    // scale to nanos
    let mut fr: u128 = facc;
    let mut k: usize = cnt;
    proof {
        assert(pow10(0) == 1);
        assert(facc as nat * pow10((k - cnt) as nat) == facc as nat * 1);
    }
    while k < 9
        invariant
            cnt <= k <= 9,
            fr as nat == facc as nat * pow10((k - cnt) as nat),
            (fr as nat) < pow10(k as nat),
            pow10(9) == 1_000_000_000,
        decreases 9 - k,
    {
        proof {
            let a = facc as nat;
            let pw = pow10((k - cnt) as nat);
            assert(pow10((k + 1 - cnt) as nat) == 10 * pw);
            assert(pow10(k as nat + 1) == 10 * pow10(k as nat));
            assert(a * (10 * pw) == (a * pw) * 10) by (nonlinear_arith);
            lemma_pow10_mono(k as nat + 1, 9);
        }
        fr = fr * 10;
        k = k + 1;
    }
    Some(fr)
}

/// Parse an IOTA amount string (decimal IOTA, such as `1.5`) into nanos.
/// The text is read exactly, as a decimal, with no binary floating point in
/// between: `1.001` gives 1_001_000_000, digits past the ninth decimal are
/// dropped, and exponents (`1e3`), `inf` and `NaN` are not amounts.
pub fn parse_iota_amount(s: &str) -> (r: Option<u64>)
    ensures
        r == spec_parse_iota_amount(s@),
{
    let v = chars_of(s);
    let n = v.len();
    let ghost sq = v@;
    let neg = n > 0 && v[0] == '-';
    let start: usize = if n > 0 && (v[0] == '+' || v[0] == '-') { 1 } else { 0 };
    let ghost b = amount_body(sq);
    assert(b =~= sq.skip(start as int));
    // find the dot
    let mut d: usize = start;
    while d < n && v[d] != '.'
        invariant
            start <= d <= n,
            n == v@.len(),
            forall|j: int| start <= j < d ==> v@[j] != '.',
        decreases n - d,
    {
        d = d + 1;
    }
    let ghost ip = int_part(b);
    let ghost fp = frac_part(b);
    proof {
        lemma_dot_pos(b, d - start);
        assert(ip =~= sq.subrange(start as int, d as int));
        if d < n {
            assert(fp =~= sq.subrange(d + 1, n as int));
        } else {
            assert(fp =~= Seq::<char>::empty());
        }
    }
    let whole = match capped_digits(&v, start, d) {
        Some(a) => a,
        None => return None,
    };
    let (fr, frac_len) = if d < n {
        match frac_digits_nanos(&v, d + 1, n) {
            Some(f) => (f, n - d - 1),
            None => return None,
        }
    } else {
        proof {
            assert(frac_nanos(fp) == 0) by {
                assert(fp.take(0) =~= Seq::<char>::empty());
                assert(digits_value(fp.take(0)) == 0);
                assert(0 * pow10(9) == 0);
            }
            assert(all_digits(fp));
        }
        (0u128, 0usize)
    };
    if (d - start) + frac_len == 0 {
        return None;
    }
    let total = whole * NANOS_PER_IOTA + fr;
    proof {
        let iv = digits_value(ip);
        if iv >= AMOUNT_CAP {
            assert(iv * 1_000_000_000 >= AMOUNT_CAP * 1_000_000_000) by (nonlinear_arith)
                requires
                    iv >= AMOUNT_CAP,
            ;
        }
    }
    if neg {
        Some(0)
    } else if total > u64::MAX as u128 {
        Some(u64::MAX)
    } else {
        Some(total as u64)
    }
}

/// `u64::from_str`: an optional `+`, then one or more decimal digits whose
/// value fits in a `u64`.
pub open spec fn spec_parse_u64(s: Seq<char>) -> Option<u64> {
    let d = if s.len() > 0 && s[0] == '+' { s.drop_first() } else { s };
    if d.len() > 0 && all_digits(d) && digits_value(d) <= u64::MAX {
        Some(digits_value(d) as u64)
    } else {
        None
    }
}

/// Parse a whole number of nanos (`str::parse::<u64>`).
pub fn parse_u64(s: &str) -> (r: Option<u64>)
    ensures
        r == spec_parse_u64(s@),
{
    let v = chars_of(s);
    let start: usize = if v.len() > 0 && v[0] == '+' { 1 } else { 0 };
    let ghost d = if s@.len() > 0 && s@[0] == '+' { s@.drop_first() } else { s@ };
    assert(d =~= v@.subrange(start as int, v@.len() as int));
    if start == v.len() {
        return None;
    }
    match capped_digits(&v, start, v.len()) {
        Some(a) => {
            if a > u64::MAX as u128 {
                None
            } else {
                Some(a as u64)
            }
        },
        None => None,
    }
}

// ── Laws ──────────────────────────────────────────────────────────

proof fn lemma_zeros_value(k: nat)
    ensures
        digits_value(zeros(k)) == 0,
        all_digits(zeros(k)),
    decreases k,
{
    if k > 0 {
        assert(zeros(k).drop_last() =~= zeros((k - 1) as nat));
        lemma_zeros_value((k - 1) as nat);
    }
}

/// Leading zeros change neither the value nor the digit-ness of a run.
proof fn lemma_leading_zeros(k: nat, x: Seq<char>)
    ensures
        digits_value(zeros(k) + x) == digits_value(x),
        all_digits(x) ==> all_digits(zeros(k) + x),
    decreases x.len(),
{
    if x.len() == 0 {
        assert(zeros(k) + x =~= zeros(k));
        lemma_zeros_value(k);
    } else {
        assert((zeros(k) + x).drop_last() =~= zeros(k) + x.drop_last());
        lemma_leading_zeros(k, x.drop_last());
        if all_digits(x) {
            assert(all_digits(x.drop_last())) by {
                assert forall|i: int| 0 <= i < x.drop_last().len() implies crate::text::is_digit(
                    #[trigger] x.drop_last()[i],
                ) by {
                    assert(x.drop_last()[i] == x[i]);
                }
            }
            assert forall|i: int| 0 <= i < (zeros(k) + x).len() implies crate::text::is_digit(
                #[trigger] (zeros(k) + x)[i],
            ) by {
                if i >= k {
                    assert((zeros(k) + x)[i] == x[i - k]);
                }
            }
        }
    }
}

/// Trailing zeros scale the value by powers of ten; what is left is a
/// prefix of digits ending in a non-zero digit (or empty).
proof fn lemma_trim_zeros(x: Seq<char>)
    requires
        all_digits(x),
    ensures
        ({
            let t = trim_end(x, '0');
            &&& t.len() <= x.len()
            &&& t == x.take(t.len() as int)
            &&& all_digits(t)
            &&& digits_value(x) == digits_value(t) * pow10((x.len() - t.len()) as nat)
            &&& t.len() > 0 ==> digits_value(t) > 0
        }),
    decreases x.len(),
{
    let t = trim_end(x, '0');
    if x.len() > 0 && x.last() == '0' {
        let y = x.drop_last();
        assert(all_digits(y)) by {
            assert forall|i: int| 0 <= i < y.len() implies crate::text::is_digit(#[trigger] y[i]) by {
                assert(y[i] == x[i]);
            }
        }
        lemma_trim_zeros(y);
        assert(t == trim_end(y, '0'));
        assert(t =~= x.take(t.len() as int));
        assert(all_digits(t));
        let a = digits_value(t);
        let p = pow10((y.len() - t.len()) as nat);
        assert(digits_value(x) == digits_value(y) * 10 + 0);
        assert(pow10((x.len() - t.len()) as nat) == 10 * p);
        assert((a * p) * 10 == a * (10 * p)) by (nonlinear_arith);
    } else {
        assert(t == x);
        assert(x.take(x.len() as int) =~= x);
        let m = (x.len() - t.len()) as nat;
        assert(m == 0);
        assert(pow10(m) == 1);
        if x.len() > 0 {
            let c = x.last();
            assert(crate::text::is_digit(x[x.len() - 1]));
            assert(c != '0');
            assert(crate::text::digit_value(c) >= 1);
            assert(digits_value(x) == digits_value(x.drop_last()) * 10 + crate::text::digit_value(
                x.last(),
            ));
        }
    }
}

/// The fractional digits of an amount: nine digits with trailing zeros
/// removed, worth the fractional nanos, and empty exactly for whole IOTA.
proof fn lemma_iota_frac_digits(n: nat)
    ensures
        all_digits(iota_frac_digits(n)),
        iota_frac_digits(n).len() <= 9,
        frac_nanos(iota_frac_digits(n)) == n % 1_000_000_000,
        iota_frac_digits(n).len() == 0 <==> n % 1_000_000_000 == 0,
{
    let f = n % 1_000_000_000;
    lemma_dec_len(f);
    lemma_dec_len_bound(f, 9);
    assert(pow10(9) == 1000000000) by {
        reveal_with_fuel(pow10, 10);
    }
    let d = dec(f);
    let padded = dec_padded(f, 9);
    if d.len() < 9 {
        lemma_leading_zeros((9 - d.len()) as nat, d);
    }
    assert(padded.len() == 9);
    assert(all_digits(padded));
    assert(digits_value(padded) == f);
    lemma_trim_zeros(padded);
    let t = iota_frac_digits(n);
    assert(t.take(t.len() as int) =~= t);
    let k = t.len();
    assert(frac_nanos(t) == digits_value(t) * pow10((9 - k) as nat));
    if k == 0 {
        assert(digits_value(t) == 0);
        let p = pow10((padded.len() - t.len()) as nat);
        let a = digits_value(t);
        assert(digits_value(padded) == a * p);
        assert(a * p == 0) by (nonlinear_arith)
            requires
                a == 0,
        ;
        assert(f == 0);
    }
    if f == 0 {
        let a = digits_value(t);
        let p = pow10((9 - k) as nat);
        lemma_pow10_positive((9 - k) as nat);
        assert(a * p == 0);
        assert(a == 0) by (nonlinear_arith)
            requires
                a * p == 0,
                p >= 1,
        ;
        assert(k == 0);
    }
}

/// No `.` among the leading digits.
proof fn lemma_dot_after_digits(a: Seq<char>, b: Seq<char>)
    requires
        all_digits(a),
        b.len() == 0 || b[0] == '.',
    ensures
        dot_pos(a + b) == a.len(),
{
    let s = a + b;
    assert forall|j: int| 0 <= j < a.len() implies s[j] != '.' by {
        assert(s[j] == a[j]);
        assert(crate::text::is_digit(a[j]));
    }
    lemma_dot_pos(s, a.len() as int);
}

/// Reading back a formatted IOTA amount gives the same number of nanos:
/// `parse_iota_amount(format_iota(n)) == Some(n)` for every `n` that fits
/// in a `u64`.
pub proof fn lemma_parse_format_iota(n: nat)
    requires
        n <= u64::MAX,
    ensures
        spec_parse_iota_amount(spec_format_iota(n)) == Some(n as u64),
{
    let w = n / 1_000_000_000;
    let f = n % 1_000_000_000;
    let s = spec_format_iota(n);
    lemma_dec_len(w);
    lemma_iota_frac_digits(n);
    let t = iota_frac_digits(n);
    assert(crate::text::is_digit(dec(w)[0]));
    assert(s[0] == dec(w)[0]);
    assert(amount_body(s) == s);
    assert(!amount_negative(s));
    if f == 0 {
        assert(s =~= dec(w) + Seq::<char>::empty());
        lemma_dot_after_digits(dec(w), Seq::<char>::empty());
        assert(int_part(s) =~= dec(w));
        assert(frac_part(s) =~= Seq::<char>::empty());
        assert(frac_nanos(Seq::<char>::empty()) == digits_value(Seq::<char>::empty()) * pow10(9));
    } else {
        let rest = seq!['.'] + t;
        assert(s =~= dec(w) + rest);
        lemma_dot_after_digits(dec(w), rest);
        assert(int_part(s) =~= dec(w));
        assert(frac_part(s) =~= t);
    }
    assert(valid_amount(s));
    assert(amount_nanos(s) == w * 1_000_000_000 + f);
}

/// `format_nanos` is `format_iota` followed by the unit.
pub proof fn lemma_format_nanos_is_iota_with_unit(n: nat)
    ensures
        spec_format_nanos(n) == spec_format_iota(n) + " IOTA"@,
{
    lemma_iota_frac_digits(n);
    reveal_strlit(" IOTA");
    assert(" IOTA"@ =~= seq![' ', 'I', 'O', 'T', 'A']);
}

} // verus!
