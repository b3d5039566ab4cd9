//! Character-level string helpers shared by the formatting code: decimal
//! digits, zero padding, trimming, substring search and slicing by the
//! UTF-8 byte offsets that `str` indexing uses.

use vstd::prelude::*;

verus! {

// ── Decimal digits ────────────────────────────────────────────────

/// The ASCII digit for `d` (`d < 10`).
pub open spec fn digit_char(d: nat) -> char {
    (d + 48) as char
}

pub open spec fn is_digit(c: char) -> bool {
    '0' <= c && c <= '9'
}

pub open spec fn digit_value(c: char) -> nat {
    (c as int - 48) as nat
}

/// The shortest decimal representation of `n` (what `to_string` prints).
pub open spec fn dec(n: nat) -> Seq<char>
    decreases n,
{
    if n < 10 {
        seq![digit_char(n)]
    } else {
        dec(n / 10).push(digit_char(n % 10))
    }
}

/// A run of `k` zero digits.
pub open spec fn zeros(k: nat) -> Seq<char> {
    Seq::new(k, |i: int| '0')
}

/// `n` in decimal, left-padded with zeros to at least `width` characters
/// (what `format!("{:0>width$}", n)` prints).
pub open spec fn dec_padded(n: nat, width: nat) -> Seq<char> {
    if dec(n).len() >= width {
        dec(n)
    } else {
        zeros((width - dec(n).len()) as nat) + dec(n)
    }
}

/// `s` without its trailing `c` characters (`trim_end_matches(c)`).
pub open spec fn trim_end(s: Seq<char>, c: char) -> Seq<char>
    decreases s.len(),
{
    if s.len() > 0 && s.last() == c {
        trim_end(s.drop_last(), c)
    } else {
        s
    }
}

/// The numeric value of a run of decimal digits (0 for the empty run).
pub open spec fn digits_value(s: Seq<char>) -> nat
    decreases s.len(),
{
    if s.len() == 0 {
        0
    } else {
        digits_value(s.drop_last()) * 10 + digit_value(s.last())
    }
}

pub open spec fn all_digits(s: Seq<char>) -> bool {
    forall|i: int| 0 <= i < s.len() ==> is_digit(#[trigger] s[i])
}

pub open spec fn pow10(k: nat) -> nat
    decreases k,
{
    if k == 0 {
        1
    } else {
        10 * pow10((k - 1) as nat)
    }
}

pub proof fn lemma_pow10_positive(k: nat)
    ensures
        pow10(k) >= 1,
    decreases k,
{
    if k > 0 {
        lemma_pow10_positive((k - 1) as nat);
    }
}

pub proof fn lemma_digit_char(d: nat)
    requires
        d < 10,
    ensures
        is_digit(digit_char(d)),
        digit_value(digit_char(d)) == d,
{
    assert((d + 48) as char as int == d + 48);
}

pub proof fn lemma_dec_len(n: nat)
    ensures
        dec(n).len() >= 1,
        all_digits(dec(n)),
        digits_value(dec(n)) == n,
        dec(n).len() <= 1 || n >= 10,
    decreases n,
{
    lemma_digit_char(n % 10);
    if n >= 10 {
        lemma_dec_len(n / 10);
        assert(dec(n).drop_last() =~= dec(n / 10));
        assert(dec(n).last() == digit_char(n % 10));
        assert(digits_value(dec(n)) == digits_value(dec(n / 10)) * 10 + n % 10);
        assert((n / 10) * 10 + n % 10 == n);
    } else {
        assert(dec(n).drop_last() =~= Seq::<char>::empty());
        assert(digits_value(dec(n)) == digits_value(Seq::<char>::empty()) * 10 + n % 10);
    }
}

/// `dec(n)` has at most `k` digits exactly when `n < 10^k`.
pub proof fn lemma_dec_len_bound(n: nat, k: nat)
    ensures
        dec(n).len() <= k <==> (k >= 1 && n < pow10(k)),
    decreases n,
{
    lemma_pow10_positive(k);
    if n < 10 {
        if k >= 1 {
            lemma_pow10_positive((k - 1) as nat);
        }
    } else {
        if k >= 1 {
            lemma_dec_len_bound(n / 10, (k - 1) as nat);
            lemma_pow10_positive((k - 1) as nat);
        }
    }
}

/// Appends `n` in decimal to `s`.
pub fn push_dec(s: &mut String, n: u128)
    ensures
        final(s)@ == old(s)@ + dec(n as nat),
{
    // collect the digits, least significant first
    let mut rev: Vec<char> = Vec::new();
    let mut m: u128 = n;
    while m >= 10
        invariant
            dec(n as nat) =~= dec(m as nat) + rev@.reverse(),
        decreases m,
    {
        let d: u128 = m % 10;
        let ch: char = ((d as u8) + 48) as char;
        proof {
            assert(dec(m as nat) =~= dec((m / 10) as nat).push(digit_char((m % 10) as nat)));
        }
        let ghost old_rev = rev@;
        rev.push(ch);
        proof {
            assert(rev@.reverse() =~= seq![ch] + old_rev.reverse());
        }
        m = m / 10;
    }
    let ch: char = ((m as u8) + 48) as char;
    let ghost old_rev = rev@;
    rev.push(ch);
    proof {
        assert(rev@.reverse() =~= seq![ch] + old_rev.reverse());
    }
    let mut i: usize = rev.len();
    let ghost start = s@;
    while i > 0
        invariant
            i <= rev@.len(),
            s@ == start + rev@.reverse().take((rev@.len() - i) as int),
            dec(n as nat) =~= rev@.reverse(),
        decreases i,
    {
        i = i - 1;
        push_char(s, rev[i]);
        proof {
            assert(rev@.reverse().take((rev@.len() - i) as int) =~= rev@.reverse().take(
                (rev@.len() - i - 1) as int,
            ).push(rev@[i as int]));
        }
    }
    assert(rev@.reverse().take(rev@.len() as int) =~= rev@.reverse());
}

/// Appends `n` in decimal, zero-padded to at least `width` characters.
pub fn push_dec_padded(s: &mut String, n: u128, width: usize)
    ensures
        final(s)@ == old(s)@ + dec_padded(n as nat, width as nat),
{
    let mut digits = String::new();
    push_dec(&mut digits, n);
    let len = count_chars(&digits);
    let ghost start = s@;
    if len < width {
        let mut k: usize = 0;
        while k < width - len
            invariant
                k <= width - len,
                s@ == start + zeros(k as nat),
            decreases width - len - k,
        {
            push_char(s, '0');
            k = k + 1;
            proof {
                assert(zeros(k as nat) =~= zeros((k - 1) as nat).push('0'));
            }
        }
    }
    push_str(s, digits.as_str());
    proof {
        if len < width {
            assert(start + zeros((width - len) as nat) + digits@ =~= start + (zeros(
                (width - len) as nat,
            ) + digits@));
        }
    }
}

/// The number of characters of a string.
pub fn count_chars(s: &String) -> (n: usize)
    ensures
        n as nat == s@.len(),
{
    let v = chars_of(s.as_str());
    v.len()
}

/// Appends every character of `t` to `s`.
pub fn push_str(s: &mut String, t: &str)
    ensures
        final(s)@ == old(s)@ + t@,
{
    let v = chars_of(t);
    push_chars(s, &v);
}

/// Appends a sequence of characters to `s`.
pub fn push_chars(s: &mut String, v: &Vec<char>)
    ensures
        final(s)@ == old(s)@ + v@,
{
    let ghost start = s@;
    for i in 0..v.len()
        invariant
            s@ == start + v@.take(i as int),
    {
        push_char(s, v[i]);
        proof {
            assert(v@.take(i + 1) =~= v@.take(i as int).push(v@[i as int]));
        }
    }
    assert(v@.take(v@.len() as int) =~= v@);
}

/// A string holding exactly the given characters.
pub fn string_of(v: &Vec<char>) -> (s: String)
    ensures
        s@ == v@,
{
    let mut s = String::new();
    push_chars(&mut s, v);
    assert(Seq::<char>::empty() + v@ =~= v@);
    s
}

/// A copy of a string slice as an owned string.
pub fn owned(t: &str) -> (s: String)
    ensures
        s@ == t@,
{
    let mut s = String::new();
    push_str(&mut s, t);
    assert(Seq::<char>::empty() + t@ =~= t@);
    s
}

/// Appends one character to a string (std's `String::push`).
#[verifier::external_body]
pub(crate) fn push_char(s: &mut String, c: char)
    ensures
        final(s)@ == old(s)@.push(c),
{
    s.push(c);
}

/// The characters of a string slice, in order.
pub fn chars_of(s: &str) -> (v: Vec<char>)
    ensures
        v@ == s@,
{
    let mut v: Vec<char> = Vec::new();
    for c in it: s.chars()
        invariant
            v@ == it.seq().take(it.index() as int),
    {
        v.push(c);
    }
    v
}

// ── UTF-8 byte offsets ────────────────────────────────────────────

/// Number of bytes `c` takes in UTF-8 (`char::len_utf8`).
pub open spec fn char_width(c: char) -> nat {
    if (c as u32) < 0x80 {
        1
    } else if (c as u32) < 0x800 {
        2
    } else if (c as u32) < 0x10000 {
        3
    } else {
        4
    }
}

/// Length in bytes of the UTF-8 encoding of `s` (`str::len`).
pub open spec fn byte_len(s: Seq<char>) -> nat
    decreases s.len(),
{
    if s.len() == 0 {
        0
    } else {
        byte_len(s.drop_last()) + char_width(s.last())
    }
}

/// The longest prefix of `s` whose encoding takes at most `k` bytes.
pub open spec fn byte_prefix(s: Seq<char>, k: nat) -> Seq<char>
    decreases s.len(),
{
    if byte_len(s) <= k {
        s
    } else {
        byte_prefix(s.drop_last(), k)
    }
}

/// Byte offset `k` falls between two characters of `s` (or at either end).
pub open spec fn is_boundary(s: Seq<char>, k: nat) -> bool {
    byte_len(byte_prefix(s, k)) == k
}

/// A character takes at most four bytes.
pub proof fn lemma_byte_len_at_most_4(s: Seq<char>)
    ensures
        byte_len(s) <= 4 * s.len(),
    decreases s.len(),
{
    if s.len() > 0 {
        lemma_byte_len_at_most_4(s.drop_last());
    }
}

/// A number of at most 20 digits: every `u64` (and `usize`).
pub proof fn lemma_dec_len_u64(n: nat)
    requires
        n <= u64::MAX,
    ensures
        dec(n).len() <= 20,
{
    assert(pow10(20) == 100000000000000000000) by {
        reveal_with_fuel(pow10, 21);
    }
    lemma_dec_len_bound(n, 20);
}

/// The end of a text is a character boundary.
pub proof fn lemma_boundary_at_end(s: Seq<char>)
    ensures
        is_boundary(s, byte_len(s)),
{
}

/// `&s[..k]` for a byte offset `k` on a character boundary.
pub open spec fn slice_to(s: Seq<char>, k: nat) -> Seq<char> {
    byte_prefix(s, k)
}

/// `&s[k..]` for a byte offset `k` on a character boundary.
pub open spec fn slice_from(s: Seq<char>, k: nat) -> Seq<char> {
    s.skip(byte_prefix(s, k).len() as int)
}

pub proof fn lemma_byte_len_take_step(s: Seq<char>, i: int)
    requires
        0 <= i < s.len(),
    ensures
        byte_len(s.take(i + 1)) == byte_len(s.take(i)) + char_width(s[i]),
{
    assert(s.take(i + 1).drop_last() =~= s.take(i));
}

pub proof fn lemma_byte_len_mono(s: Seq<char>, i: int, j: int)
    requires
        0 <= i <= j <= s.len(),
    ensures
        byte_len(s.take(i)) + (j - i) <= byte_len(s.take(j)),
    decreases j - i,
{
    if i < j {
        lemma_byte_len_mono(s, i, j - 1);
        lemma_byte_len_take_step(s, j - 1);
    }
}

/// `byte_prefix(s, k)` is the prefix of `i` characters when `i` is the
/// last character count that fits in `k` bytes.
pub proof fn lemma_byte_prefix_take(s: Seq<char>, k: nat, i: int)
    requires
        0 <= i <= s.len(),
        byte_len(s.take(i)) <= k,
        i == s.len() || byte_len(s.take(i + 1)) > k,
    ensures
        byte_prefix(s, k) == s.take(i),
    decreases s.len(),
{
    assert(s.take(s.len() as int) =~= s);
    if byte_len(s) <= k {
        if i < s.len() {
            lemma_byte_len_mono(s, i + 1, s.len() as int);
        }
    } else {
        let t = s.drop_last();
        assert(i < s.len());
        assert forall|m: int| 0 <= m <= t.len() implies #[trigger] t.take(m) == s.take(m) by {
            assert(t.take(m) =~= s.take(m));
        }
        assert(t.take(t.len() as int) =~= t);
        lemma_byte_prefix_take(t, k, i);
    }
}

/// Characters of `v` that fit in `k` bytes: the `i` with
/// `v@.take(i) == byte_prefix(v@, k)`, and the number of bytes they take.
pub fn prefix_for_bytes(v: &Vec<char>, k: usize) -> (r: (usize, usize))
    ensures
        r.0 <= v@.len(),
        v@.take(r.0 as int) == byte_prefix(v@, k as nat),
        r.1 as nat == byte_len(v@.take(r.0 as int)),
        r.1 <= k,
{
    let mut i: usize = 0;
    let mut acc: usize = 0;
    assert(v@.take(0) =~= Seq::<char>::empty());
    while i < v.len()
        invariant
            i <= v@.len(),
            acc as nat == byte_len(v@.take(i as int)),
            acc <= k,
        decreases v@.len() - i,
    {
        let w = width_of(v[i]);
        proof {
            lemma_byte_len_take_step(v@, i as int);
        }
        if w > k - acc {
            proof {
                lemma_byte_prefix_take(v@, k as nat, i as int);
            }
            return (i, acc);
        }
        acc = acc + w;
        i = i + 1;
    }
    proof {
        lemma_byte_prefix_take(v@, k as nat, i as int);
    }
    (i, acc)
}

/// `char::len_utf8`.
pub fn width_of(c: char) -> (w: usize)
    ensures
        w as nat == char_width(c),
        1 <= w <= 4,
{
    let x = c as u32;
    if x < 0x80 {
        1
    } else if x < 0x800 {
        2
    } else if x < 0x10000 {
        3
    } else {
        4
    }
}

/// `str::len` on a character sequence.
pub fn byte_len_of(v: &Vec<char>) -> (n: usize)
    requires
        byte_len(v@) <= usize::MAX,
    ensures
        n as nat == byte_len(v@),
{
    let mut acc: usize = 0;
    assert(v@.take(0) =~= Seq::<char>::empty());
    for i in 0..v.len()
        invariant
            acc as nat == byte_len(v@.take(i as int)),
            byte_len(v@) <= usize::MAX,
    {
        proof {
            lemma_byte_len_take_step(v@, i as int);
            lemma_byte_len_mono(v@, i + 1, v@.len() as int);
            assert(v@.take(v@.len() as int) =~= v@);
        }
        acc = acc + width_of(v[i]);
    }
    assert(v@.take(v@.len() as int) =~= v@);
    acc
}

/// The characters `v[lo..hi]`.
pub fn sub_chars(v: &Vec<char>, lo: usize, hi: usize) -> (r: Vec<char>)
    requires
        lo <= hi <= v@.len(),
    ensures
        r@ == v@.subrange(lo as int, hi as int),
{
    let mut r: Vec<char> = Vec::new();
    for i in lo..hi
        invariant
            lo <= hi <= v@.len(),
            r@ == v@.subrange(lo as int, i as int),
    {
        r.push(v[i]);
        proof {
            assert(v@.subrange(lo as int, i + 1) =~= v@.subrange(lo as int, i as int).push(
                v@[i as int],
            ));
        }
    }
    r
}

/// The longest suffix of `s` whose encoding takes at most `k` bytes.
pub open spec fn byte_suffix(s: Seq<char>, k: nat) -> Seq<char>
    decreases s.len(),
{
    if byte_len(s) <= k {
        s
    } else {
        byte_suffix(s.drop_first(), k)
    }
}

pub proof fn lemma_byte_len_first(s: Seq<char>)
    requires
        s.len() > 0,
    ensures
        byte_len(s) == char_width(s[0]) + byte_len(s.drop_first()),
    decreases s.len(),
{
    if s.len() > 1 {
        lemma_byte_len_first(s.drop_last());
        assert(s.drop_last().drop_first() =~= s.drop_first().drop_last());
    } else {
        assert(s.drop_first() =~= Seq::<char>::empty());
        assert(s.drop_last() =~= Seq::<char>::empty());
    }
}

pub proof fn lemma_byte_len_skip_step(s: Seq<char>, j: int)
    requires
        0 < j <= s.len(),
    ensures
        byte_len(s.skip(j - 1)) == char_width(s[j - 1]) + byte_len(s.skip(j)),
{
    lemma_byte_len_first(s.skip(j - 1));
    assert(s.skip(j - 1).drop_first() =~= s.skip(j));
}

pub proof fn lemma_byte_len_skip_mono(s: Seq<char>, i: int, j: int)
    requires
        0 <= i <= j <= s.len(),
    ensures
        byte_len(s.skip(j)) + (j - i) <= byte_len(s.skip(i)),
    decreases j - i,
{
    if i < j {
        lemma_byte_len_skip_mono(s, i + 1, j);
        lemma_byte_len_skip_step(s, i + 1);
    }
}

/// `byte_suffix(s, k)` starts at `j` when `j` is the first start that fits.
pub proof fn lemma_byte_suffix_skip(s: Seq<char>, k: nat, j: int)
    requires
        0 <= j <= s.len(),
        byte_len(s.skip(j)) <= k,
        j == 0 || byte_len(s.skip(j - 1)) > k,
    ensures
        byte_suffix(s, k) == s.skip(j),
    decreases s.len(),
{
    assert(s.skip(0) =~= s);
    if byte_len(s) <= k {
        if j > 0 {
            lemma_byte_len_skip_mono(s, 0, j - 1);
        }
    } else {
        let t = s.drop_first();
        assert(j > 0);
        assert forall|m: int| 1 <= m <= s.len() implies #[trigger] t.skip(m - 1) == s.skip(m) by {
            assert(t.skip(m - 1) =~= s.skip(m));
        }
        lemma_byte_suffix_skip(t, k, j - 1);
    }
}

/// Start of the longest suffix of `v` that fits in `k` bytes, and the
/// number of bytes it takes.
pub fn suffix_for_bytes(v: &Vec<char>, k: usize) -> (r: (usize, usize))
    ensures
        r.0 <= v@.len(),
        v@.skip(r.0 as int) == byte_suffix(v@, k as nat),
        r.1 as nat == byte_len(v@.skip(r.0 as int)),
        r.1 <= k,
{
    let mut j: usize = v.len();
    let mut acc: usize = 0;
    assert(v@.skip(j as int) =~= Seq::<char>::empty());
    while j > 0
        invariant
            j <= v@.len(),
            acc as nat == byte_len(v@.skip(j as int)),
            acc <= k,
        decreases j,
    {
        let w = width_of(v[j - 1]);
        proof {
            lemma_byte_len_skip_step(v@, j as int);
        }
        if w > k - acc {
            proof {
                lemma_byte_suffix_skip(v@, k as nat, j as int);
            }
            return (j, acc);
        }
        acc = acc + w;
        j = j - 1;
    }
    proof {
        lemma_byte_suffix_skip(v@, k as nat, j as int);
    }
    (j, acc)
}

/// Whether the encoding of `v` takes at most `k` bytes.
pub fn fits_in_bytes(v: &Vec<char>, k: usize) -> (b: bool)
    ensures
        b == (byte_len(v@) <= k),
{
    let (i, _) = prefix_for_bytes(v, k);
    assert(v@.take(v@.len() as int) =~= v@);
    i == v.len()
}

// ── Searching ─────────────────────────────────────────────────────

pub open spec fn has_prefix(s: Seq<char>, p: Seq<char>) -> bool {
    p.len() <= s.len() && s.take(p.len() as int) == p
}

/// `needle` occurs in `hay` starting at index `i`.
pub open spec fn occurs_at(hay: Seq<char>, needle: Seq<char>, i: int) -> bool {
    0 <= i && i + needle.len() <= hay.len() && hay.subrange(i, i + needle.len()) == needle
}

/// `str::contains` with a string pattern.
pub open spec fn contains_seq(hay: Seq<char>, needle: Seq<char>) -> bool {
    exists|i: int| occurs_at(hay, needle, i)
}

pub fn starts_with(s: &Vec<char>, p: &Vec<char>) -> (b: bool)
    ensures
        b == has_prefix(s@, p@),
{
    if p.len() > s.len() {
        return false;
    }
    for i in 0..p.len()
        invariant
            p@.len() <= s@.len(),
            forall|j: int| 0 <= j < i ==> s@[j] == p@[j],
    {
        if s[i] != p[i] {
            assert(s@.take(p@.len() as int)[i as int] != p@[i as int]);
            return false;
        }
    }
    assert(s@.take(p@.len() as int) =~= p@);
    true
}

fn occurs_at_exec(hay: &Vec<char>, needle: &Vec<char>, i: usize) -> (b: bool)
    requires
        i + needle@.len() <= hay@.len(),
    ensures
        b == occurs_at(hay@, needle@, i as int),
{
    let _hay_len = hay.len();
    for j in 0..needle.len()
        invariant
            i + needle@.len() <= hay@.len(),
            hay@.len() <= usize::MAX,
            forall|m: int| 0 <= m < j ==> hay@[i + m] == needle@[m],
    {
        assert(i + j < hay@.len());
        if hay[i + j] != needle[j] {
            assert(hay@.subrange(i as int, i + needle@.len())[j as int] != needle@[j as int]);
            return false;
        }
    }
    assert(hay@.subrange(i as int, i + needle@.len()) =~= needle@);
    true
}

pub fn contains_chars(hay: &Vec<char>, needle: &Vec<char>) -> (b: bool)
    ensures
        b == contains_seq(hay@, needle@),
{
    if needle.len() > hay.len() {
        return false;
    }
    if needle.len() == 0 {
        assert(hay@.subrange(0, 0) =~= needle@);
        assert(occurs_at(hay@, needle@, 0));
        return true;
    }
    let last = hay.len() - needle.len();
    let mut i: usize = 0;
    while i <= last
        invariant
            last + needle@.len() == hay@.len(),
            needle@.len() >= 1,
            hay@.len() <= usize::MAX,
            forall|m: int| 0 <= m < i ==> !occurs_at(hay@, needle@, m),
        decreases last + 1 - i,
    {
        if occurs_at_exec(hay, needle, i) {
            return true;
        }
        i = i + 1;
    }
    assert forall|m: int| !occurs_at(hay@, needle@, m) by {
        if 0 <= m && m + needle@.len() <= hay@.len() {
            assert(m < i);
        }
    }
    false
}

/// `str::contains` on string slices.
pub fn str_contains(hay: &str, needle: &str) -> (b: bool)
    ensures
        b == contains_seq(hay@, needle@),
{
    let h = chars_of(hay);
    let n = chars_of(needle);
    contains_chars(&h, &n)
}

/// Start of the last `"::"` in `s`, or -1 when there is none.
pub open spec fn last_sep(s: Seq<char>) -> int
    decreases s.len(),
{
    if s.len() < 2 {
        -1
    } else if s[s.len() - 2] == ':' && s[s.len() - 1] == ':' {
        s.len() - 2
    } else {
        last_sep(s.drop_last())
    }
}

/// `s.rsplit("::").next()`: what follows the last `"::"`, or all of `s`.
pub open spec fn last_segment(s: Seq<char>) -> Seq<char> {
    if last_sep(s) < 0 {
        s
    } else {
        s.skip(last_sep(s) + 2)
    }
}

proof fn lemma_last_sep_range(s: Seq<char>)
    ensures
        -1 <= last_sep(s),
        last_sep(s) >= 0 ==> last_sep(s) + 2 <= s.len() && s[last_sep(s)] == ':' && s[last_sep(s)
            + 1] == ':',
    decreases s.len(),
{
    if s.len() >= 2 && !(s[s.len() - 2] == ':' && s[s.len() - 1] == ':') {
        lemma_last_sep_range(s.drop_last());
    }
}

/// Index where the last `"::"`-separated segment of `v` starts.
pub fn last_segment_start(v: &Vec<char>) -> (i: usize)
    ensures
        i <= v@.len(),
        v@.skip(i as int) == last_segment(v@),
{
    let mut k: usize = v.len();
    assert(v@.take(k as int) =~= v@);
    while k >= 2
        invariant
            k <= v@.len(),
            last_sep(v@) == last_sep(v@.take(k as int)),
        decreases k,
    {
        if v[k - 2] == ':' && v[k - 1] == ':' {
            proof {
                lemma_last_sep_range(v@);
            }
            return k;
        }
        proof {
            assert(v@.take(k as int).drop_last() =~= v@.take(k - 1));
        }
        k = k - 1;
    }
    assert(v@.skip(0) =~= v@);
    0
}

/// `s.rsplit("::").next()` as an owned string.
pub fn last_segment_of(s: &str) -> (r: String)
    ensures
        r@ == last_segment(s@),
{
    let v = chars_of(s);
    let i = last_segment_start(&v);
    let tail = sub_chars(&v, i, v.len());
    assert(tail@ =~= v@.skip(i as int));
    string_of(&tail)
}

// ── Whitespace ────────────────────────────────────────────────────

/// `char::is_whitespace`: the Unicode `White_Space` property.
pub open spec fn is_space(c: char) -> bool {
    let x = c as u32;
    (0x09 <= x && x <= 0x0d) || x == 0x20 || x == 0x85 || x == 0xa0 || x == 0x1680 || (0x2000
        <= x && x <= 0x200a) || x == 0x2028 || x == 0x2029 || x == 0x202f || x == 0x205f || x
        == 0x3000
}

pub fn is_space_exec(c: char) -> (b: bool)
    ensures
        b == is_space(c),
{
    let x = c as u32;
    (0x09 <= x && x <= 0x0d) || x == 0x20 || x == 0x85 || x == 0xa0 || x == 0x1680 || (0x2000
        <= x && x <= 0x200a) || x == 0x2028 || x == 0x2029 || x == 0x202f || x == 0x205f || x
        == 0x3000
}

/// Number of leading whitespace characters.
pub open spec fn lead_space(s: Seq<char>) -> nat
    decreases s.len(),
{
    if s.len() > 0 && is_space(s[0]) {
        1 + lead_space(s.drop_first())
    } else {
        0
    }
}

/// Number of trailing whitespace characters.
pub open spec fn trail_space(s: Seq<char>) -> nat
    decreases s.len(),
{
    if s.len() > 0 && is_space(s.last()) {
        1 + trail_space(s.drop_last())
    } else {
        0
    }
}

/// `str::trim`.
pub open spec fn trim(s: Seq<char>) -> Seq<char> {
    if lead_space(s) == s.len() {
        Seq::empty()
    } else {
        s.subrange(lead_space(s) as int, s.len() - trail_space(s))
    }
}

proof fn lemma_lead_space_bound(s: Seq<char>)
    ensures
        lead_space(s) <= s.len(),
        lead_space(s) < s.len() ==> !is_space(s[lead_space(s) as int]),
    decreases s.len(),
{
    if s.len() > 0 && is_space(s[0]) {
        lemma_lead_space_bound(s.drop_first());
    }
}

proof fn lemma_trail_space_bound(s: Seq<char>)
    ensures
        trail_space(s) <= s.len(),
        forall|k: int| s.len() - trail_space(s) <= k < s.len() ==> is_space(#[trigger] s[k]),
    decreases s.len(),
{
    if s.len() > 0 && is_space(s.last()) {
        lemma_trail_space_bound(s.drop_last());
        assert forall|k: int| s.len() - trail_space(s) <= k < s.len() implies is_space(
            #[trigger] s[k],
        ) by {
            if k < s.len() - 1 {
                assert(s[k] == s.drop_last()[k]);
            }
        }
    }
}

/// Trimming never lengthens a text.
pub proof fn lemma_trim_len(s: Seq<char>)
    ensures
        trim(s).len() <= s.len(),
{
    lemma_lead_space_bound(s);
    lemma_trail_space_bound(s);
    if lead_space(s) < s.len() {
        let l = lead_space(s) as int;
        if l >= s.len() - trail_space(s) {
            assert(is_space(s[l]));
        }
    }
}

proof fn lemma_lead_space_step(s: Seq<char>, k: int)
    requires
        0 <= k < s.len(),
        is_space(s[k]),
    ensures
        lead_space(s.skip(k)) == 1 + lead_space(s.skip(k + 1)),
{
    assert(s.skip(k).drop_first() =~= s.skip(k + 1));
}

proof fn lemma_trail_space_step(s: Seq<char>, j: int)
    requires
        0 < j <= s.len(),
        is_space(s[j - 1]),
    ensures
        trail_space(s.take(j)) == 1 + trail_space(s.take(j - 1)),
{
    assert(s.take(j).drop_last() =~= s.take(j - 1));
}

/// `str::trim` on a character sequence.
pub fn trim_chars(v: &Vec<char>) -> (r: Vec<char>)
    ensures
        r@ == trim(v@),
{
    let n = v.len();
    let mut k: usize = 0;
    assert(v@.skip(0) =~= v@);
    while k < n && is_space_exec(v[k])
        invariant
            k <= n == v@.len(),
            lead_space(v@) == k + lead_space(v@.skip(k as int)),
        decreases n - k,
    {
        proof {
            lemma_lead_space_step(v@, k as int);
        }
        k = k + 1;
    }
    proof {
        if k == n {
            assert(v@.skip(k as int) =~= Seq::<char>::empty());
        }
    }
    if k == n {
        return Vec::new();
    }
    let mut j: usize = n;
    assert(v@.take(n as int) =~= v@);
    while is_space_exec(v[j - 1])
        invariant
            k < j <= n == v@.len(),
            !is_space(v@[k as int]),
            trail_space(v@) == (n - j) + trail_space(v@.take(j as int)),
        decreases j,
    {
        proof {
            lemma_trail_space_step(v@, j as int);
        }
        j = j - 1;
    }
    sub_chars(v, k, j)
}

/// `str::trim`, as an owned string.
pub fn trim_str(s: &str) -> (r: String)
    ensures
        r@ == trim(s@),
{
    let v = chars_of(s);
    let t = trim_chars(&v);
    string_of(&t)
}

/// Equality of two string slices, character by character.
pub fn str_eq(a: &str, b: &str) -> (r: bool)
    ensures
        r == (a@ == b@),
{
    let x = chars_of(a);
    let y = chars_of(b);
    chars_eq(&x, &y)
}

/// Equality of two character sequences.
pub fn chars_eq(x: &Vec<char>, y: &Vec<char>) -> (r: bool)
    ensures
        r == (x@ == y@),
{
    if x.len() != y.len() {
        return false;
    }
    for i in 0..x.len()
        invariant
            x@.len() == y@.len(),
            forall|j: int| 0 <= j < i ==> x@[j] == y@[j],
    {
        if x[i] != y[i] {
            return false;
        }
    }
    assert(x@ =~= y@);
    true
}

// ── Ordering ──────────────────────────────────────────────────────

/// Lexicographic order by character code (the order of `String`).
pub open spec fn seq_lt(a: Seq<char>, b: Seq<char>) -> bool
    decreases a.len(),
{
    if a.len() == 0 {
        b.len() > 0
    } else if b.len() == 0 {
        false
    } else if a[0] != b[0] {
        (a[0] as u32) < (b[0] as u32)
    } else {
        seq_lt(a.drop_first(), b.drop_first())
    }
}

pub proof fn lemma_seq_lt_irrefl(a: Seq<char>)
    ensures
        !seq_lt(a, a),
    decreases a.len(),
{
    if a.len() > 0 {
        lemma_seq_lt_irrefl(a.drop_first());
    }
}

pub proof fn lemma_seq_lt_trans(a: Seq<char>, b: Seq<char>, c: Seq<char>)
    requires
        seq_lt(a, b),
        seq_lt(b, c),
    ensures
        seq_lt(a, c),
    decreases a.len(),
{
    if a.len() > 0 && b.len() > 0 && c.len() > 0 && a[0] == b[0] && b[0] == c[0] {
        lemma_seq_lt_trans(a.drop_first(), b.drop_first(), c.drop_first());
    }
}

pub proof fn lemma_seq_lt_total(a: Seq<char>, b: Seq<char>)
    ensures
        a == b || seq_lt(a, b) || seq_lt(b, a),
    decreases a.len(),
{
    if a.len() > 0 && b.len() > 0 {
        if a[0] == b[0] {
            lemma_seq_lt_total(a.drop_first(), b.drop_first());
            if a.drop_first() == b.drop_first() {
                assert(a =~= seq![a[0]] + a.drop_first());
                assert(b =~= seq![b[0]] + b.drop_first());
            }
        } else {
            vstd::utf8::char_u32_cast(a[0], a[0] as u32);
            vstd::utf8::char_u32_cast(b[0], b[0] as u32);
            assert((a[0] as u32) != (b[0] as u32));
        }
    } else if a.len() == 0 && b.len() == 0 {
        assert(a =~= b);
    }
}

/// `a < b` on strings.
pub fn str_lt(a: &str, b: &str) -> (r: bool)
    ensures
        r == seq_lt(a@, b@),
{
    let x = chars_of(a);
    let y = chars_of(b);
    let mut i: usize = 0;
    assert(x@.skip(0) =~= x@);
    assert(y@.skip(0) =~= y@);
    while i < x.len() && i < y.len() && x[i] == y[i]
        invariant
            i <= x@.len(),
            i <= y@.len(),
            seq_lt(x@, y@) == seq_lt(x@.skip(i as int), y@.skip(i as int)),
        decreases x@.len() - i,
    {
        proof {
            assert(x@.skip(i as int).drop_first() =~= x@.skip(i + 1));
            assert(y@.skip(i as int).drop_first() =~= y@.skip(i + 1));
        }
        i = i + 1;
    }
    if i == x.len() {
        i < y.len()
    } else if i == y.len() {
        false
    } else {
        (x[i] as u32) < (y[i] as u32)
    }
}

// ── Unicode case and classes (std) ────────────────────────────────

/// Whether a character has the Unicode Alphabetic or Numeric property.
pub uninterp spec fn alphanumeric(c: char) -> bool;

/// `char::is_alphanumeric`: its result is named `alphanumeric(c)`.
#[verifier::external_body]
pub(crate) fn is_alphanumeric(c: char) -> (b: bool)
    ensures
        b == alphanumeric(c),
{
    c.is_alphanumeric()
}

/// The Unicode lowercase mapping of a string.
pub uninterp spec fn lowercase(s: Seq<char>) -> Seq<char>;

/// `str::to_lowercase`: its result is named `lowercase(s@)`.
#[verifier::external_body]
pub(crate) fn to_lowercase(s: &str) -> (r: String)
    ensures
        r@ == lowercase(s@),
{
    s.to_lowercase()
}

/// The Unicode uppercase mapping of one character (one or more characters).
pub uninterp spec fn uppercase(c: char) -> Seq<char>;

/// `char::to_uppercase`, collected into a string: named `uppercase(c)`.
#[verifier::external_body]
pub(crate) fn char_to_uppercase(c: char) -> (r: String)
    ensures
        r@ == uppercase(c),
{
    c.to_uppercase().collect()
}

} // verus!
