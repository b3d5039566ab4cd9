//! Display helpers shared by the screens: decorated titles, hint tables,
//! shortened type names, truncation and scroll clamping.

use vstd::prelude::*;
use crate::seqs::first_index;
use crate::text::{
    byte_len, byte_suffix, char_width, last_segment, last_segment_start, lemma_trim_len, trim,
    trim_chars, char_to_uppercase, chars_of, fits_in_bytes, is_boundary, owned,
    prefix_for_bytes, push_chars, push_str, slice_to, string_of, sub_chars, suffix_for_bytes,
    str_eq, uppercase,
};
use crate::types::Screen;

verus! {

// ── Decorated titles ──────────────────────────────────────────────

/// The sparkle drawn around titles at a colour phase.
pub open spec fn sparkle(phase: u32) -> char {
    let i = (phase / 5) % 4;
    if i == 0 {
        '✦'
    } else if i == 1 {
        '✧'
    } else if i == 2 {
        '⋆'
    } else {
        '˚'
    }
}

/// A title between two sparkles, or as it is when colours are off (phase 0).
pub open spec fn spec_sparkle_text(phase: u32, text: Seq<char>) -> Seq<char> {
    if phase == 0 {
        text
    } else {
        seq![sparkle(phase), ' '] + text + seq![' ', sparkle(phase)]
    }
}

/// Decorate a title for the colour phase `phase`.
pub fn sparkle_text(phase: u32, text: &str) -> (r: String)
    ensures
        r@ == spec_sparkle_text(phase, text@),
{
    if phase == 0 {
        return owned(text);
    }
    let i = (phase / 5) % 4;
    let s = if i == 0 {
        '✦'
    } else if i == 1 {
        '✧'
    } else if i == 2 {
        '⋆'
    } else {
        '˚'
    };
    let mut r = string_of(&vec![s, ' ']);
    push_str(&mut r, text);
    push_chars(&mut r, &vec![' ', s]);
    assert(r@ =~= spec_sparkle_text(phase, text@));
    r
}

// ── Capitalisation ────────────────────────────────────────────────

/// The first character in upper case, the rest unchanged.
pub open spec fn spec_capitalize(s: Seq<char>) -> Seq<char> {
    if s.len() == 0 {
        s
    } else {
        uppercase(s[0]) + s.skip(1)
    }
}

pub fn capitalize(s: &str) -> (r: String)
    ensures
        r@ == spec_capitalize(s@),
{
    let v = chars_of(s);
    if v.len() == 0 {
        return String::new();
    }
    let mut r = char_to_uppercase(v[0]);
    let rest = sub_chars(&v, 1, v.len());
    push_chars(&mut r, &rest);
    assert(rest@ =~= v@.skip(1));
    r
}

// ── Key hints ─────────────────────────────────────────────────────

/// The key hints of a screen: (key label, description, action id); an empty
/// action id marks a hint that cannot be clicked.
pub open spec fn hint_table(screen: Screen) -> Seq<(Seq<char>, Seq<char>, Seq<char>)> {
    match screen {
        Screen::Coins => seq![
            ("Enter"@, "explore"@, "explore"@),
            ("t"@, "type-search"@, "type_search"@),
            ("m"@, "merge"@, "merge"@),
            ("s"@, "split"@, "split"@),
            ("x"@, "transfer"@, "quick_transfer"@),
            ("p"@, "portfolio"@, "portfolio"@),
            ("/"@, "search"@, "filter"@),
            ("c"@, "copy"@, "copy"@),
            ("C"@, "export"@, "export"@),
            ("f"@, "faucet"@, "faucet"@),
            ("r"@, "refresh"@, "refresh"@),
            ("?"@, "help"@, "help"@),
        ],
        Screen::Objects => seq![
            ("Enter"@, "explore"@, "explore"@),
            ("t"@, "type-search"@, "type_search"@),
            ("x"@, "transfer"@, "transfer"@),
            ("/"@, "search"@, "filter"@),
            ("c"@, "copy"@, "copy"@),
            ("C"@, "export"@, "export"@),
            ("r"@, "refresh"@, "refresh"@),
            ("?"@, "help"@, "help"@),
        ],
        Screen::Transactions => seq![
            ("Enter"@, "explore"@, "explore"@),
            ("/"@, "search"@, "filter"@),
            ("c"@, "copy"@, "copy"@),
            ("C"@, "export"@, "export"@),
            ("r"@, "refresh"@, "refresh"@),
            ("?"@, "help"@, "help"@),
        ],
        Screen::Staking => seq![
            ("Enter"@, "explore"@, "explore"@),
            ("u"@, "unstake"@, "unstake"@),
            ("c"@, "copy"@, "copy"@),
            ("r"@, "refresh"@, "refresh"@),
            ("?"@, "help"@, "help"@),
        ],
        Screen::Packages => seq![
            ("Enter"@, "browse"@, "pkg_browse"@),
            ("e"@, "explore"@, "explore"@),
            ("Esc"@, "back"@, "pkg_back"@),
            ("c"@, "copy"@, "copy"@),
            ("r"@, "refresh"@, "refresh"@),
            ("?"@, "help"@, "help"@),
        ],
        Screen::AddressBook => seq![
            ("Enter"@, "explore"@, "explore"@),
            ("a"@, "add"@, "addr_add"@),
            ("e"@, "edit"@, "addr_edit"@),
            ("d"@, "delete"@, "addr_delete"@),
            ("l"@, "iota-name"@, "iota_name"@),
            ("c"@, "copy"@, "copy"@),
            ("C"@, "export"@, "export"@),
            ("?"@, "help"@, "help"@),
        ],
        Screen::Keys => seq![
            ("Enter"@, "explore"@, "explore"@),
            ("a"@, "activate"@, "key_activate"@),
            ("Sp"@, "visible"@, "key_visible"@),
            ("g"@, "gen"@, "key_gen"@),
            ("i"@, "import"@, "key_import"@),
            ("e"@, "rename"@, "key_rename"@),
            ("d"@, "delete"@, "key_delete"@),
            ("c"@, "copy"@, "copy"@),
            ("C"@, "export"@, "export"@),
            ("?"@, "help"@, "help"@),
        ],
        Screen::TxBuilder => seq![
            ("a"@, "add"@, "tx_add"@),
            ("d"@, "delete"@, "tx_delete"@),
            ("c"@, "clear"@, "tx_clear"@),
            ("?"@, "help"@, "help"@),
        ],
        Screen::Explorer => seq![
            ("Enter"@, "search"@, "explore"@),
            ("r"@, "refresh"@, "refresh"@),
            ("?"@, "help"@, "help"@),
        ],
    }
}

/// Structured hints for each screen.
pub fn screen_hints(screen: Screen) -> (r: Vec<(&'static str, &'static str, &'static str)>)
    ensures
        r@.len() == hint_table(screen).len(),
        forall|i: int|
            0 <= i < r@.len() ==> (r@[i].0@, r@[i].1@, r@[i].2@) == #[trigger] hint_table(screen)[i],
{
    let r = match screen {
        Screen::Coins => vec![
            ("Enter", "explore", "explore"),
            ("t", "type-search", "type_search"),
            ("m", "merge", "merge"),
            ("s", "split", "split"),
            ("x", "transfer", "quick_transfer"),
            ("p", "portfolio", "portfolio"),
            ("/", "search", "filter"),
            ("c", "copy", "copy"),
            ("C", "export", "export"),
            ("f", "faucet", "faucet"),
            ("r", "refresh", "refresh"),
            ("?", "help", "help"),
        ],
        Screen::Objects => vec![
            ("Enter", "explore", "explore"),
            ("t", "type-search", "type_search"),
            ("x", "transfer", "transfer"),
            ("/", "search", "filter"),
            ("c", "copy", "copy"),
            ("C", "export", "export"),
            ("r", "refresh", "refresh"),
            ("?", "help", "help"),
        ],
        Screen::Transactions => vec![
            ("Enter", "explore", "explore"),
            ("/", "search", "filter"),
            ("c", "copy", "copy"),
            ("C", "export", "export"),
            ("r", "refresh", "refresh"),
            ("?", "help", "help"),
        ],
        Screen::Staking => vec![
            ("Enter", "explore", "explore"),
            ("u", "unstake", "unstake"),
            ("c", "copy", "copy"),
            ("r", "refresh", "refresh"),
            ("?", "help", "help"),
        ],
        Screen::Packages => vec![
            ("Enter", "browse", "pkg_browse"),
            ("e", "explore", "explore"),
            ("Esc", "back", "pkg_back"),
            ("c", "copy", "copy"),
            ("r", "refresh", "refresh"),
            ("?", "help", "help"),
        ],
        Screen::AddressBook => vec![
            ("Enter", "explore", "explore"),
            ("a", "add", "addr_add"),
            ("e", "edit", "addr_edit"),
            ("d", "delete", "addr_delete"),
            ("l", "iota-name", "iota_name"),
            ("c", "copy", "copy"),
            ("C", "export", "export"),
            ("?", "help", "help"),
        ],
        Screen::Keys => vec![
            ("Enter", "explore", "explore"),
            ("a", "activate", "key_activate"),
            ("Sp", "visible", "key_visible"),
            ("g", "gen", "key_gen"),
            ("i", "import", "key_import"),
            ("e", "rename", "key_rename"),
            ("d", "delete", "key_delete"),
            ("c", "copy", "copy"),
            ("C", "export", "export"),
            ("?", "help", "help"),
        ],
        Screen::TxBuilder => vec![
            ("a", "add", "tx_add"),
            ("d", "delete", "tx_delete"),
            ("c", "clear", "tx_clear"),
            ("?", "help", "help"),
        ],
        Screen::Explorer => vec![
            ("Enter", "search", "explore"),
            ("r", "refresh", "refresh"),
            ("?", "help", "help"),
        ],
    };
    r
}

/// The description a screen gives a key in place of the generic one.
pub open spec fn screen_override(screen: Screen, key: Seq<char>) -> Option<Seq<char>> {
    match screen {
        Screen::Coins => {
            if key == "m"@ {
                Some("Merge selected coins"@)
            }
            else if key == "s"@ {
                Some("Split selected coin"@)
            }
            else if key == "x"@ {
                Some("Quick transfer coin"@)
            }
            else if key == "p"@ {
                Some("Portfolio view (multi-account)"@)
            }
            else if key == "t"@ {
                Some("Search by coin type"@)
            }
            else if key == "f"@ {
                Some("Request faucet tokens"@)
            } else {
                None
            }
        },
        Screen::Objects => {
            if key == "t"@ {
                Some("Search by object type"@)
            } else {
                None
            }
        },
        Screen::Transactions => None,
        Screen::Staking => {
            if key == "u"@ {
                Some("Unstake selected stake"@)
            } else {
                None
            }
        },
        Screen::Packages => {
            if key == "Enter"@ {
                Some("Browse package modules"@)
            }
            else if key == "e"@ {
                Some("Explore package in explorer"@)
            }
            else if key == "Esc"@ {
                Some("Back to parent level"@)
            } else {
                None
            }
        },
        Screen::AddressBook => {
            if key == "a"@ {
                Some("Add address"@)
            }
            else if key == "e"@ {
                Some("Edit selected entry"@)
            }
            else if key == "d"@ {
                Some("Delete selected entry"@)
            }
            else if key == "l"@ {
                Some("Lookup IOTA-Name"@)
            } else {
                None
            }
        },
        Screen::Keys => {
            if key == "a"@ {
                Some("Activate selected key"@)
            }
            else if key == "Sp"@ {
                Some("Toggle key visibility"@)
            }
            else if key == "g"@ {
                Some("Generate new key"@)
            }
            else if key == "i"@ {
                Some("Import key from private key"@)
            }
            else if key == "e"@ {
                Some("Rename selected key"@)
            }
            else if key == "d"@ {
                Some("Delete selected key"@)
            } else {
                None
            }
        },
        Screen::TxBuilder => {
            if key == "a"@ {
                Some("Add command"@)
            }
            else if key == "d"@ {
                Some("Delete selected command"@)
            }
            else if key == "c"@ {
                Some("Clear / reset transaction"@)
            } else {
                None
            }
        },
        Screen::Explorer => {
            if key == "Enter"@ {
                Some("Search / lookup"@)
            } else {
                None
            }
        },
    }
}

/// The generic description of a hint's short label.
pub open spec fn generic_description(short: Seq<char>) -> Seq<char> {
    if short == "explore"@ {
        "Explore in explorer"@
    } else if short == "filter"@ || short == "search"@ {
        "Filter list"@
    } else if short == "copy"@ {
        "Copy selected to clipboard"@
    } else if short == "export"@ {
        "Export list as CSV"@
    } else if short == "refresh"@ {
        "Refresh data"@
    } else if short == "help"@ {
        "Show this help"@
    } else {
        short
    }
}

pub open spec fn spec_hint_description(key: Seq<char>, short: Seq<char>, screen: Screen) -> Seq<char> {
    match screen_override(screen, key) {
        Some(d) => d,
        None => generic_description(short),
    }
}

/// Map a hint's short label to a full description, context-sensitive per screen.
pub fn hint_description(key: &'static str, short: &'static str, screen: Screen) -> (r: &'static str)
    ensures
        r@ == spec_hint_description(key@, short@, screen),
{
    let specific: Option<&'static str> = match screen {
        Screen::Coins => {
            if str_eq(key, "m") {
                Some("Merge selected coins")
            }
            else if str_eq(key, "s") {
                Some("Split selected coin")
            }
            else if str_eq(key, "x") {
                Some("Quick transfer coin")
            }
            else if str_eq(key, "p") {
                Some("Portfolio view (multi-account)")
            }
            else if str_eq(key, "t") {
                Some("Search by coin type")
            }
            else if str_eq(key, "f") {
                Some("Request faucet tokens")
            } else {
                None
            }
        },
        Screen::Objects => {
            if str_eq(key, "t") {
                Some("Search by object type")
            } else {
                None
            }
        },
        Screen::Transactions => None,
        Screen::Staking => {
            if str_eq(key, "u") {
                Some("Unstake selected stake")
            } else {
                None
            }
        },
        Screen::Packages => {
            if str_eq(key, "Enter") {
                Some("Browse package modules")
            }
            else if str_eq(key, "e") {
                Some("Explore package in explorer")
            }
            else if str_eq(key, "Esc") {
                Some("Back to parent level")
            } else {
                None
            }
        },
        Screen::AddressBook => {
            if str_eq(key, "a") {
                Some("Add address")
            }
            else if str_eq(key, "e") {
                Some("Edit selected entry")
            }
            else if str_eq(key, "d") {
                Some("Delete selected entry")
            }
            else if str_eq(key, "l") {
                Some("Lookup IOTA-Name")
            } else {
                None
            }
        },
        Screen::Keys => {
            if str_eq(key, "a") {
                Some("Activate selected key")
            }
            else if str_eq(key, "Sp") {
                Some("Toggle key visibility")
            }
            else if str_eq(key, "g") {
                Some("Generate new key")
            }
            else if str_eq(key, "i") {
                Some("Import key from private key")
            }
            else if str_eq(key, "e") {
                Some("Rename selected key")
            }
            else if str_eq(key, "d") {
                Some("Delete selected key")
            } else {
                None
            }
        },
        Screen::TxBuilder => {
            if str_eq(key, "a") {
                Some("Add command")
            }
            else if str_eq(key, "d") {
                Some("Delete selected command")
            }
            else if str_eq(key, "c") {
                Some("Clear / reset transaction")
            } else {
                None
            }
        },
        Screen::Explorer => {
            if str_eq(key, "Enter") {
                Some("Search / lookup")
            } else {
                None
            }
        },
    };
    match specific {
        Some(d) => d,
        None => {
            if str_eq(short, "explore") {
                "Explore in explorer"
            } else if str_eq(short, "filter") || str_eq(short, "search") {
                "Filter list"
            } else if str_eq(short, "copy") {
                "Copy selected to clipboard"
            } else if str_eq(short, "export") {
                "Export list as CSV"
            } else if str_eq(short, "refresh") {
                "Refresh data"
            } else if str_eq(short, "help") {
                "Show this help"
            } else {
                short
            }
        },
    }
}

// ── Move type names ───────────────────────────────────────────────

/// Index of the first `<`.
pub open spec fn first_open(s: Seq<char>) -> Option<nat> {
    first_index(s.len(), |i: int| s[i] == '<')
}

/// The first comma at nesting depth 0 at or after `i`, the nesting depth
/// before `i` being `d` (a `>` without its `<` leaves the depth at 0).
pub open spec fn top_comma_from(s: Seq<char>, i: nat, d: nat) -> Option<nat>
    decreases s.len() - i,
{
    if i >= s.len() {
        None
    } else if s[i as int] == '<' {
        top_comma_from(s, i + 1, d + 1)
    } else if s[i as int] == '>' {
        top_comma_from(
            s,
            i + 1,
            if d == 0 {
                0
            } else {
                (d - 1) as nat
            },
        )
    } else if s[i as int] == ',' && d == 0 {
        Some(i)
    } else {
        top_comma_from(s, i + 1, d)
    }
}

pub open spec fn top_comma(s: Seq<char>) -> Option<nat> {
    top_comma_from(s, 0, 0)
}

/// Generic parameters split at their top-level commas.
pub open spec fn split_params(s: Seq<char>) -> Seq<Seq<char>>
    decreases s.len(),
{
    match top_comma(s) {
        Some(c) => if c < s.len() {
            seq![s.take(c as int)] + split_params(s.skip(c + 1int))
        } else {
            seq![s]
        },
        None => seq![s],
    }
}

/// `short_type_name`: the last `::` segment of the type, and of each of
/// its (trimmed) generic parameters, recursively:
/// `0xabc::m::S<0x2::coin::Coin>` becomes `S<Coin>`.
pub open spec fn short_name(s: Seq<char>) -> Seq<char>
    decreases 2 * s.len() + 1,
{
    match first_open(s) {
        None => last_segment(s),
        Some(o) => if o + 1 < s.len() {
            last_segment(s.take(o as int)) + seq!['<'] + join_params(s.subrange(o + 1int, s.len() - 1))
                + seq!['>']
        } else {
            last_segment(s)
        },
    }
}

/// The shortened parameters of `t`, joined with `", "`.
pub open spec fn join_params(t: Seq<char>) -> Seq<char>
    decreases 2 * t.len() + 2,
{
    match top_comma(t) {
        Some(c) => if c < t.len() {
            proof {
                lemma_trim_len(t.take(c as int));
            }
            short_name(trim(t.take(c as int))) + ", "@ + join_params(t.skip(c + 1int))
        } else {
            proof {
                lemma_trim_len(t);
            }
            short_name(trim(t))
        },
        None => {
            proof {
                lemma_trim_len(t);
            }
            short_name(trim(t))
        },
    }
}

/// The byte offsets `short_type_name` cuts at are valid: after each `<`
/// comes at least one character, and the last character (the closing `>`)
/// takes one byte.
pub open spec fn short_ok(s: Seq<char>) -> bool
    decreases 2 * s.len() + 1,
{
    match first_open(s) {
        None => true,
        Some(o) => o + 1 < s.len() && char_width(s.last()) == 1 && params_ok(
            s.subrange(o + 1int, s.len() - 1),
        ),
    }
}

pub open spec fn params_ok(t: Seq<char>) -> bool
    decreases 2 * t.len() + 2,
{
    match top_comma(t) {
        Some(c) => if c < t.len() {
            proof {
                lemma_trim_len(t.take(c as int));
            }
            short_ok(trim(t.take(c as int))) && params_ok(t.skip(c + 1int))
        } else {
            proof {
                lemma_trim_len(t);
            }
            short_ok(trim(t))
        },
        None => {
            proof {
                lemma_trim_len(t);
            }
            short_ok(trim(t))
        },
    }
}

/// The parameters shortened one by one and joined with `", "`.
pub open spec fn joined(ps: Seq<Seq<char>>) -> Seq<char>
    decreases ps.len(),
{
    if ps.len() == 0 {
        Seq::empty()
    } else if ps.len() == 1 {
        short_name(trim(ps[0]))
    } else {
        joined(ps.drop_last()) + ", "@ + short_name(trim(ps.last()))
    }
}

proof fn lemma_joined_cons(a: Seq<char>, ps: Seq<Seq<char>>)
    requires
        ps.len() >= 1,
    ensures
        joined(seq![a] + ps) == short_name(trim(a)) + ", "@ + joined(ps),
    decreases ps.len(),
{
    let x = seq![a] + ps;
    assert(x.last() == ps.last());
    if ps.len() == 1 {
        assert(x.drop_last() =~= seq![a]);
        assert(joined(seq![a]) == short_name(trim(a)));
        assert(joined(ps) == short_name(trim(ps.last())));
        assert(joined(x) == joined(x.drop_last()) + ", "@ + short_name(trim(x.last())));
    } else {
        assert(x.drop_last() =~= seq![a] + ps.drop_last());
        lemma_joined_cons(a, ps.drop_last());
        let h = short_name(trim(a));
        let j = joined(ps.drop_last());
        let l = short_name(trim(ps.last()));
        assert(joined(x) == joined(x.drop_last()) + ", "@ + l);
        assert(joined(ps) == j + ", "@ + l);
        assert(h + ", "@ + j + ", "@ + l =~= h + ", "@ + (j + ", "@ + l));
    }
}

/// What the splitting and the direct definition agree on: the joined
/// parameters, their validity and their lengths.
proof fn lemma_split_params(t: Seq<char>)
    ensures
        split_params(t).len() >= 1,
        join_params(t) == joined(split_params(t)),
        params_ok(t) ==> forall|i: int|
            0 <= i < split_params(t).len() ==> short_ok(trim(#[trigger] split_params(t)[i])),
        forall|i: int| 0 <= i < split_params(t).len() ==> (#[trigger] split_params(t)[i]).len() <= t.len(),
    decreases t.len(),
{
    match top_comma(t) {
        Some(c) => {
            if c < t.len() {
                let rest = t.skip(c + 1int);
                lemma_split_params(rest);
                lemma_joined_cons(t.take(c as int), split_params(rest));
                let ps = split_params(t);
                assert(ps == seq![t.take(c as int)] + split_params(rest));
                assert forall|i: int| 0 <= i < ps.len() implies (#[trigger] ps[i]).len() <= t.len() by {
                    if i > 0 {
                        assert(ps[i] == split_params(rest)[i - 1]);
                    }
                }
                if params_ok(t) {
                    assert forall|i: int| 0 <= i < ps.len() implies short_ok(trim(#[trigger] ps[i])) by {
                        if i > 0 {
                            assert(ps[i] == split_params(rest)[i - 1]);
                        }
                    }
                }
            }
        },
        None => {},
    }
}

/// The first `<` of `v`.
fn first_open_index(v: &Vec<char>) -> (r: Option<usize>)
    ensures
        r is None ==> first_open(v@) is None,
        r matches Some(o) ==> first_open(v@) == Some(o as nat),
{
    for i in 0..v.len()
        invariant
            first_index(i as nat, |j: int| v@[j] == '<') is None,
    {
        if v[i] == '<' {
            proof {
                crate::seqs::lemma_first_index_found(v@.len(), |j: int| v@[j] == '<', i as nat);
            }
            return Some(i);
        }
    }
    None
}

/// The first comma of `v` at nesting depth 0.
fn top_comma_index(v: &Vec<char>) -> (r: Option<usize>)
    ensures
        r is None ==> top_comma(v@) is None,
        r matches Some(c) ==> top_comma(v@) == Some(c as nat) && c < v@.len(),
{
    let mut depth: usize = 0;
    let mut i: usize = 0;
    while i < v.len()
        invariant
            i <= v@.len(),
            depth <= i,
            top_comma(v@) == top_comma_from(v@, i as nat, depth as nat),
        decreases v@.len() - i,
    {
        let c = v[i];
        if c == '<' {
            depth = depth + 1;
        } else if c == '>' {
            depth = depth.saturating_sub(1);
        } else if c == ',' && depth == 0 {
            return Some(i);
        }
        i = i + 1;
    }
    None
}

/// The last `::` segment of a type path (`0x2::iota::IOTA` becomes `IOTA`).
fn short_segment(path: &Vec<char>) -> (r: Vec<char>)
    ensures
        r@ == last_segment(path@),
{
    let i = last_segment_start(path);
    let r = sub_chars(path, i, path.len());
    assert(r@ =~= path@.skip(i as int));
    r
}

/// Split generic type parameters by top-level commas (respecting nested `<>`).
fn split_type_params(s: &Vec<char>) -> (parts: Vec<Vec<char>>)
    ensures
        parts@.len() == split_params(s@).len(),
        forall|i: int| 0 <= i < parts@.len() ==> (#[trigger] parts@[i])@ == split_params(s@)[i],
{
    let mut parts: Vec<Vec<char>> = Vec::new();
    let mut rest: Vec<char> = sub_chars(s, 0, s.len());
    assert(rest@ =~= s@);
    loop
        invariant
            split_params(s@) == Seq::new(parts@.len(), |i: int| parts@[i]@) + split_params(rest@),
        decreases rest@.len(),
    {
        match top_comma_index(&rest) {
            Some(c) => {
                let n = rest.len();
                let head = sub_chars(&rest, 0, c);
                let tail = sub_chars(&rest, c + 1, n);
                assert(head@ =~= rest@.take(c as int));
                assert(tail@ =~= rest@.skip(c + 1int));
                let ghost before = Seq::new(parts@.len(), |i: int| parts@[i]@);
                parts.push(head);
                assert(Seq::new(parts@.len(), |i: int| parts@[i]@) =~= before.push(head@));
                assert(before + split_params(rest@) =~= before.push(head@) + split_params(tail@));
                rest = tail;
            },
            None => {
                let ghost before = Seq::new(parts@.len(), |i: int| parts@[i]@);
                let ghost last = rest@;
                parts.push(rest);
                assert(Seq::new(parts@.len(), |i: int| parts@[i]@) =~= before + seq![last]);
                return parts;
            },
        }
    }
}

/// Shorten a type given as characters (see `short_name`).
fn short_chars(v: &Vec<char>) -> (r: Vec<char>)
    requires
        short_ok(v@),
    ensures
        r@ == short_name(v@),
    decreases v@.len(),
{
    match first_open_index(v) {
        None => short_segment(v),
        Some(o) => {
            let n = v.len();
            let head = sub_chars(v, 0, o);
            assert(head@ =~= v@.take(o as int));
            let mut out = short_segment(&head);
            out.push('<');
            let inner = sub_chars(v, o + 1, n - 1);
            let parts = split_type_params(&inner);
            proof {
                lemma_split_params(inner@);
            }
            let ghost ps = split_params(inner@);
            let ghost start = out@;
            for k in 0..parts.len()
                invariant
                    parts@.len() == ps.len(),
                    forall|i: int| 0 <= i < parts@.len() ==> (#[trigger] parts@[i])@ == ps[i],
                    forall|i: int| 0 <= i < ps.len() ==> short_ok(trim(#[trigger] ps[i])),
                    forall|i: int| 0 <= i < ps.len() ==> (#[trigger] ps[i]).len() <= inner@.len(),
                    inner@.len() < v@.len(),
                    out@ == start + joined(ps.take(k as int)),
            {
                let ghost before = out@;
                if k > 0 {
                    out.push(',');
                    out.push(' ');
                }
                let p = trim_chars(&parts[k]);
                proof {
                    assert(parts@[k as int]@ == ps[k as int]);
                    lemma_trim_len(ps[k as int]);
                }
                let sp = short_chars(&p);
                let mut sp = sp;
                out.append(&mut sp);
                proof {
                    let t = ps.take(k + 1);
                    assert(t.drop_last() =~= ps.take(k as int));
                    assert(t.last() == ps[k as int]);
                    reveal_strlit(", ");
                    assert(out@ =~= start + joined(t));
                }
            }
            assert(ps.take(ps.len() as int) =~= ps);
            out.push('>');
            out
        },
    }
}

/// Extract the short type name from a fully-qualified Move type string.
/// e.g. `0x2::iota::IOTA` → `IOTA`, `0xabc::module::MyStruct<0x2::coin::Coin>` → `MyStruct<Coin>`.
pub fn short_type_name(full_type: &str) -> (r: String)
    requires
        short_ok(full_type@),
    ensures
        r@ == short_name(full_type@),
{
    let v = chars_of(full_type);
    let r = short_chars(&v);
    string_of(&r)
}

// ── Truncation ────────────────────────────────────────────────────

/// `truncate_type`: the text when it fits in `max` bytes; else its first
/// `max` bytes when `max` is below 6; else its first `max - 3` bytes and `...`.
pub open spec fn spec_truncate_type(s: Seq<char>, max: nat) -> Seq<char> {
    if byte_len(s) <= max {
        s
    } else if max < 6 {
        slice_to(s, max)
    } else {
        slice_to(s, (max - 3) as nat) + "..."@
    }
}

/// The byte offset `truncate_type` cuts at falls between characters.
pub open spec fn truncate_type_ok(s: Seq<char>, max: nat) -> bool {
    ||| byte_len(s) <= max
    ||| max < 6 && is_boundary(s, max)
    ||| max >= 6 && is_boundary(s, (max - 3) as nat)
}

/// Truncate a type string to fit within `max_width` bytes, adding `...`.
pub fn truncate_type(type_str: &str, max_width: usize) -> (r: String)
    requires
        truncate_type_ok(type_str@, max_width as nat),
    ensures
        r@ == spec_truncate_type(type_str@, max_width as nat),
{
    let v = chars_of(type_str);
    if fits_in_bytes(&v, max_width) {
        return string_of(&v);
    }
    let keep = if max_width < 6 {
        max_width
    } else {
        max_width - 3
    };
    let (i, _) = prefix_for_bytes(&v, keep);
    let head = sub_chars(&v, 0, i);
    assert(head@ =~= v@.take(i as int));
    let mut r = string_of(&head);
    if max_width >= 6 {
        push_str(&mut r, "...");
    }
    r
}

/// `truncate_address`: the text when it fits in `max` bytes; else its first
/// `max` bytes when `max` is below 10; else about half of `max` bytes from
/// each end around `..`.
pub open spec fn spec_truncate_address(s: Seq<char>, max: nat) -> Seq<char> {
    if byte_len(s) <= max {
        s
    } else if max < 10 {
        slice_to(s, max)
    } else {
        let p = (max / 2 - 1) as nat;
        let q = (max - p - 2) as nat;
        slice_to(s, p) + ".."@ + byte_suffix(s, q)
    }
}

/// The byte offsets `truncate_address` cuts at fall between characters.
pub open spec fn truncate_address_ok(s: Seq<char>, max: nat) -> bool {
    ||| byte_len(s) <= max
    ||| max < 10 && is_boundary(s, max)
    ||| max >= 10 && {
        let p = (max / 2 - 1) as nat;
        let q = (max - p - 2) as nat;
        is_boundary(s, p) && byte_len(byte_suffix(s, q)) == q
    }
}

/// Truncate an address for display, keeping prefix and suffix visible.
pub fn truncate_address(addr: &str, max_width: usize) -> (r: String)
    requires
        truncate_address_ok(addr@, max_width as nat),
    ensures
        r@ == spec_truncate_address(addr@, max_width as nat),
{
    let v = chars_of(addr);
    if fits_in_bytes(&v, max_width) {
        return string_of(&v);
    }
    if max_width < 10 {
        let (i, _) = prefix_for_bytes(&v, max_width);
        let head = sub_chars(&v, 0, i);
        assert(head@ =~= v@.take(i as int));
        return string_of(&head);
    }
    let prefix = max_width / 2 - 1;
    let suffix = max_width - prefix - 2;
    let (i, _) = prefix_for_bytes(&v, prefix);
    let (j, _) = suffix_for_bytes(&v, suffix);
    let head = sub_chars(&v, 0, i);
    let tail = sub_chars(&v, j, v.len());
    assert(head@ =~= v@.take(i as int));
    assert(tail@ =~= v@.skip(j as int));
    let mut r = string_of(&head);
    push_str(&mut r, "..");
    push_chars(&mut r, &tail);
    assert(r@ =~= spec_truncate_address(addr@, max_width as nat));
    r
}

// ── Scrolling ─────────────────────────────────────────────────────

/// The largest scroll offset that keeps the view filled.
pub open spec fn max_scroll(content_len: nat, visible: nat) -> nat {
    if content_len > visible {
        (content_len - visible) as nat
    } else {
        0
    }
}

/// Clamp scroll offset so content doesn't scroll past the end.
pub fn clamp_scroll(scroll: &mut usize, content_len: usize, visible: usize)
    ensures
        *final(scroll) as nat == if *old(scroll) > max_scroll(content_len as nat, visible as nat) {
            max_scroll(content_len as nat, visible as nat)
        } else {
            *old(scroll) as nat
        },
{
    let max = content_len.saturating_sub(visible);
    if *scroll > max {
        *scroll = max;
    }
}

} // verus!
