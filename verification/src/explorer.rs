//! Explorer state: lookup and type-search results, paging cursors, and the
//! tree cursor that walks the sections of a lookup result.

use vstd::prelude::*;
use crate::lookup::{
    LookupResult, lemma_lines_take_mono, lemma_lines_take_step, lines_of, spec_cursor_to_line, valid_cursor,
};
use crate::text::{
    alphanumeric, byte_len, chars_of, contains_chars, contains_seq, fits_in_bytes, has_prefix,
    is_alphanumeric, owned, starts_with,
};
use crate::types::{LookupSection, NetworkOverview, ObjectDisplay};

verus! {

/// All explorer-related state, grouped into a single sub-struct.
pub struct ExplorerState {
    pub overview: Option<NetworkOverview>,
    pub lookup_result: Option<LookupResult>,
    pub search_results: Vec<ObjectDisplay>,
    pub search_selected: usize,
    pub search_offset: usize,
    pub search_mode: bool,
    pub search_type: String,
    pub search_cursor: Option<String>,
    pub search_has_next: bool,
    pub search_cursors: Vec<Option<String>>,
    pub lookup_selected: usize,
    pub lookup_offset: usize,
    /// Which section the cursor is on (index into sections vec).
    pub lookup_section: usize,
    /// 0 = cursor is on section heading, 1 = cursor is on a field within the section.
    pub lookup_depth: usize,
    /// Which field within the current section (only meaningful when lookup_depth == 1).
    pub lookup_field_idx: usize,
    pub lookup_query: Option<String>,
    pub lookup_address: Option<String>,
    pub lookup_obj_cursor: Option<String>,
    pub lookup_obj_cursors: Vec<Option<String>>,
    pub lookup_obj_has_next: bool,
    pub lookup_obj_page: usize,
    pub lookup_tx_cursor: Option<String>,
    pub lookup_tx_cursors: Vec<Option<String>>,
    pub lookup_tx_has_next: bool,
    pub lookup_tx_page: usize,
    pub visible_rows: usize,
    /// Y position of the pagination row (set during rendering, used for mouse hit-testing).
    pub pagination_row_y: u16,
}

// ── Tree cursor moves (pure) ──────────────────────────────────────

/// Cursor after "up": previous field, the heading, or the last field of an
/// expanded previous section (else its heading).
pub open spec fn spec_cursor_up(secs: Seq<LookupSection>, s: nat, d: nat, f: nat) -> (nat, nat, nat) {
    if secs.len() == 0 {
        (s, d, f)
    } else if d == 1 {
        if f > 0 {
            (s, 1, (f - 1) as nat)
        } else {
            (s, 0, f)
        }
    } else if s > 0 {
        let p = secs[s - 1];
        if !p.collapsed && p.fields@.len() > 0 {
            ((s - 1) as nat, 1, (p.fields@.len() - 1) as nat)
        } else {
            ((s - 1) as nat, d, f)
        }
    } else {
        (s, d, f)
    }
}

/// Cursor after "down": next field, into the first field of an expanded
/// section, or the next heading; nothing past the last line.
pub open spec fn spec_cursor_down(secs: Seq<LookupSection>, s: nat, d: nat, f: nat) -> (nat, nat, nat) {
    if secs.len() == 0 {
        (s, d, f)
    } else if d == 1 {
        if f + 1 < secs[s as int].fields@.len() {
            (s, 1, f + 1)
        } else if s + 1 < secs.len() {
            (s + 1, 0, 0)
        } else {
            (s, d, f)
        }
    } else {
        let c = secs[s as int];
        if !c.collapsed && c.fields@.len() > 0 {
            (s, 1, 0)
        } else if s + 1 < secs.len() {
            (s + 1, d, f)
        } else {
            (s, d, f)
        }
    }
}

/// "Down" on a visible cursor moves exactly one visible line, except on
/// the last line, where it stays.
pub proof fn lemma_cursor_down_moves_one_line(secs: Seq<LookupSection>, s: nat, d: nat, f: nat)
    requires
        valid_cursor(secs, s, d, f),
    ensures
        ({
            let c = spec_cursor_down(secs, s, d, f);
            let line = spec_cursor_to_line(secs, s, d, f);
            &&& valid_cursor(secs, c.0, c.1, c.2)
            &&& spec_cursor_to_line(secs, c.0, c.1, c.2) == if line + 1 < lines_of(secs) {
                line + 1
            } else {
                line
            }
        }),
{
    lemma_lines_take_step(secs, s as int);
    lemma_lines_take_mono(secs, s + 1int, secs.len() as int);
    assert(secs.take(secs.len() as int) =~= secs);
    if s + 1 < secs.len() {
        lemma_lines_take_step(secs, s + 1int);
    }
}

/// "Up" on a visible cursor moves exactly one visible line, except on the
/// first line, where it stays.
pub proof fn lemma_cursor_up_moves_one_line(secs: Seq<LookupSection>, s: nat, d: nat, f: nat)
    requires
        valid_cursor(secs, s, d, f),
    ensures
        ({
            let c = spec_cursor_up(secs, s, d, f);
            let line = spec_cursor_to_line(secs, s, d, f);
            &&& valid_cursor(secs, c.0, c.1, c.2)
            &&& spec_cursor_to_line(secs, c.0, c.1, c.2) == if line > 0 {
                line - 1
            } else {
                0
            }
        }),
{
    lemma_lines_take_step(secs, s as int);
    if s > 0 {
        lemma_lines_take_step(secs, s - 1int);
    } else {
        assert(secs.take(0) =~= Seq::<LookupSection>::empty());
    }
}

/// "Down" then "up" from any visible line but the last comes back to the
/// same cursor.
pub proof fn lemma_cursor_down_up(secs: Seq<LookupSection>, s: nat, d: nat, f: nat)
    requires
        valid_cursor(secs, s, d, f),
        spec_cursor_to_line(secs, s, d, f) + 1 < lines_of(secs),
    ensures
        ({
            let c = spec_cursor_down(secs, s, d, f);
            spec_cursor_up(secs, c.0, c.1, c.2) == (s, d, f)
        }),
{
    lemma_cursor_down_moves_one_line(secs, s, d, f);
    let c = spec_cursor_down(secs, s, d, f);
    lemma_cursor_up_moves_one_line(secs, c.0, c.1, c.2);
    let u = spec_cursor_up(secs, c.0, c.1, c.2);
    crate::lookup::lemma_cursor_line_injective(secs, u.0, u.1, u.2, s, d, f);
}

impl ExplorerState {
    pub open spec fn cursor(&self) -> (nat, nat, nat) {
        (self.lookup_section as nat, self.lookup_depth as nat, self.lookup_field_idx as nat)
    }

    pub open spec fn result_sections(&self) -> Seq<LookupSection> {
        match self.lookup_result {
            Some(r) => r.spec_sections(),
            None => Seq::empty(),
        }
    }

    /// Everything but the tree cursor is left as it was.
    pub open spec fn same_but_cursor(&self, other: &ExplorerState) -> bool {
        *self == (ExplorerState {
            lookup_section: self.lookup_section,
            lookup_depth: self.lookup_depth,
            lookup_field_idx: self.lookup_field_idx,
            ..*other
        })
    }

    /// Everything but the tree cursor and the lookup result is left as it was.
    pub open spec fn same_but_cursor_and_result(&self, other: &ExplorerState) -> bool {
        *self == (ExplorerState {
            lookup_section: self.lookup_section,
            lookup_depth: self.lookup_depth,
            lookup_field_idx: self.lookup_field_idx,
            lookup_result: self.lookup_result,
            ..*other
        })
    }

    /// The lookup result is `o`'s with section `i` folded (`true`) or
    /// unfolded (`false`); an index past the end changes nothing.
    pub open spec fn folded_from(&self, o: &ExplorerState, i: nat, collapsed: bool) -> bool {
        let secs = o.result_sections();
        &&& self.lookup_result is Some
        &&& self.lookup_result->0.spec_kind() == o.lookup_result->0.spec_kind()
        &&& self.result_sections() == if i < secs.len() {
            secs.update(i as int, LookupSection { collapsed, ..secs[i as int] })
        } else {
            secs
        }
    }

    /// Move cursor up in the lookup tree.
    pub fn lookup_cursor_up(&mut self)
        requires
            old(self).lookup_depth == 1 || old(self).lookup_section == 0 || old(self).lookup_section
                <= old(self).result_sections().len(),
        ensures
            final(self).cursor() == if old(self).lookup_result is Some {
                spec_cursor_up(
                    old(self).result_sections(),
                    old(self).lookup_section as nat,
                    old(self).lookup_depth as nat,
                    old(self).lookup_field_idx as nat,
                )
            } else {
                old(self).cursor()
            },
            final(self).same_but_cursor(old(self)),
    {
        let result = match &self.lookup_result {
            Some(r) => r,
            None => return ,
        };
        let sections = result.sections();
        if sections.len() == 0 {
            return ;
        }
        if self.lookup_depth == 1 {
            if self.lookup_field_idx > 0 {
                self.lookup_field_idx = self.lookup_field_idx - 1;
            } else {
                self.lookup_depth = 0;
            }
        } else {
            if self.lookup_section > 0 {
                let s = self.lookup_section - 1;
                let prev = &sections[s];
                let collapsed = prev.collapsed;
                let nf = prev.fields.len();
                self.lookup_section = s;
                if !collapsed && nf > 0 {
                    self.lookup_depth = 1;
                    self.lookup_field_idx = nf - 1;
                }
            }
        }
    }

    /// Move cursor down in the lookup tree.
    pub fn lookup_cursor_down(&mut self)
        requires
            old(self).result_sections().len() == 0 || old(self).lookup_section < old(
                self,
            ).result_sections().len(),
            old(self).lookup_field_idx < usize::MAX,
        ensures
            final(self).cursor() == if old(self).lookup_result is Some {
                spec_cursor_down(
                    old(self).result_sections(),
                    old(self).lookup_section as nat,
                    old(self).lookup_depth as nat,
                    old(self).lookup_field_idx as nat,
                )
            } else {
                old(self).cursor()
            },
            final(self).same_but_cursor(old(self)),
    {
        let result = match &self.lookup_result {
            Some(r) => r,
            None => return ,
        };
        let sections = result.sections();
        if sections.len() == 0 {
            return ;
        }
        let section = &sections[self.lookup_section];
        let collapsed = section.collapsed;
        let nf = section.fields.len();
        let count = sections.len();
        if self.lookup_depth == 1 {
            if self.lookup_field_idx + 1 < nf {
                self.lookup_field_idx = self.lookup_field_idx + 1;
            } else {
                if self.lookup_section + 1 < count {
                    self.lookup_section = self.lookup_section + 1;
                    self.lookup_depth = 0;
                    self.lookup_field_idx = 0;
                }
            }
        } else {
            if !collapsed && nf > 0 {
                self.lookup_depth = 1;
                self.lookup_field_idx = 0;
            } else {
                if self.lookup_section + 1 < count {
                    self.lookup_section = self.lookup_section + 1;
                }
            }
        }
    }

    /// Left: collapse section or jump to heading.
    pub fn lookup_cursor_left(&mut self)
        ensures
            old(self).lookup_depth == 1 ==> final(self).cursor() == (
                old(self).lookup_section as nat,
                0nat,
                0nat,
            ) && final(self).lookup_result == old(self).lookup_result,
            old(self).lookup_depth != 1 ==> final(self).cursor() == old(self).cursor() && (
            old(self).lookup_result is None ==> final(self).lookup_result is None) && (old(
                self,
            ).lookup_result is Some ==> final(self).folded_from(
                old(self),
                old(self).lookup_section as nat,
                true,
            )),
            final(self).same_but_cursor_and_result(old(self)),
    {
        if self.lookup_depth == 1 {
            self.lookup_depth = 0;
            self.lookup_field_idx = 0;
        } else {
            let s = self.lookup_section;
            match &mut self.lookup_result {
                Some(result) => {
                    result.set_collapsed(s, true);
                },
                None => {},
            }
        }
    }

    /// Right: expand section or step into fields.
    pub fn lookup_cursor_right(&mut self)
        ensures
            ({
                let secs = old(self).result_sections();
                let s = old(self).lookup_section;
                if old(self).lookup_result is Some && s < secs.len() && old(self).lookup_depth
                    == 0 {
                    if secs[s as int].collapsed {
                        final(self).cursor() == old(self).cursor() && final(self).folded_from(
                            old(self),
                            s as nat,
                            false,
                        )
                    } else if secs[s as int].fields@.len() > 0 {
                        final(self).cursor() == (s as nat, 1nat, 0nat) && final(self).lookup_result
                            == old(self).lookup_result
                    } else {
                        final(self).cursor() == old(self).cursor() && final(self).lookup_result
                            == old(self).lookup_result
                    }
                } else {
                    final(self).cursor() == old(self).cursor() && final(self).lookup_result
                        == old(self).lookup_result
                }
            }),
            final(self).same_but_cursor_and_result(old(self)),
    {
        let s = self.lookup_section;
        if self.lookup_depth != 0 {
            return ;
        }
        let (collapsed, nf) = match &self.lookup_result {
            Some(result) => {
                let secs = result.sections();
                if s >= secs.len() {
                    return ;
                }
                (secs[s].collapsed, secs[s].fields.len())
            },
            None => return ,
        };
        if collapsed {
            match &mut self.lookup_result {
                Some(result) => {
                    result.set_collapsed(s, false);
                },
                None => {},
            }
        } else if nf > 0 {
            self.lookup_depth = 1;
            self.lookup_field_idx = 0;
        }
    }
}

impl ExplorerState {
    /// What `reset_for_lookup(query)` leaves: lookup state cleared and the
    /// query remembered; overview, search paging and layout kept.
    pub open spec fn lookup_reset_of(&self, old: &ExplorerState, query: Seq<char>) -> bool {
        &&& !self.search_mode
        &&& self.lookup_result is None
        &&& self.lookup_selected == 0
        &&& self.lookup_offset == 0
        &&& self.cursor() == (0nat, 0nat, 0nat)
        &&& self.lookup_query matches Some(q) && q@ == query
        &&& self.lookup_address matches Some(a) && a@ == query
        &&& self.lookup_obj_cursor is None
        &&& self.lookup_obj_cursors@.len() == 0
        &&& !self.lookup_obj_has_next
        &&& self.lookup_obj_page == 0
        &&& self.lookup_tx_cursor is None
        &&& self.lookup_tx_cursors@.len() == 0
        &&& !self.lookup_tx_has_next
        &&& self.lookup_tx_page == 0
        &&& self.search_results@.len() == 0
        &&& !self.search_has_next
        &&& self.search_cursor is None
        &&& self.search_cursors@.len() == 0
        &&& self.overview == old.overview
        &&& self.search_selected == old.search_selected
        &&& self.search_offset == old.search_offset
        &&& self.search_type == old.search_type
        &&& self.visible_rows == old.visible_rows
        &&& self.pagination_row_y == old.pagination_row_y
    }

    /// Reset state for a new lookup query (address/object/transaction).
    pub fn reset_for_lookup(&mut self, query: &str)
        ensures
            final(self).lookup_reset_of(old(self), query@),
    {
        self.search_mode = false;
        self.lookup_result = None;
        self.lookup_selected = 0;
        self.lookup_offset = 0;
        self.lookup_section = 0;
        self.lookup_depth = 0;
        self.lookup_field_idx = 0;
        self.lookup_query = Some(owned(query));
        self.lookup_address = Some(owned(query));
        self.lookup_obj_cursor = None;
        self.lookup_obj_cursors.clear();
        self.lookup_obj_has_next = false;
        self.lookup_obj_page = 0;
        self.lookup_tx_cursor = None;
        self.lookup_tx_cursors.clear();
        self.lookup_tx_has_next = false;
        self.lookup_tx_page = 0;
        self.search_results.clear();
        self.search_has_next = false;
        self.search_cursor = None;
        self.search_cursors.clear();
    }

    /// What `reset_for_search(type_filter)` leaves: search state cleared and
    /// the type remembered; lookup paging and layout kept.
    pub open spec fn search_reset_of(&self, old: &ExplorerState, type_filter: Seq<char>) -> bool {
        &&& self.search_mode
        &&& self.lookup_result is None
        &&& self.cursor() == (0nat, 0nat, 0nat)
        &&& self.search_results@.len() == 0
        &&& self.search_selected == 0
        &&& self.search_offset == 0
        &&& !self.search_has_next
        &&& self.search_cursor is None
        &&& self.search_cursors@.len() == 0
        &&& self.search_type@ == type_filter
        &&& self.overview == old.overview
        &&& self.lookup_selected == old.lookup_selected
        &&& self.lookup_offset == old.lookup_offset
        &&& self.lookup_query == old.lookup_query
        &&& self.lookup_address == old.lookup_address
        &&& self.lookup_obj_cursor == old.lookup_obj_cursor
        &&& self.lookup_obj_cursors == old.lookup_obj_cursors
        &&& self.lookup_obj_has_next == old.lookup_obj_has_next
        &&& self.lookup_obj_page == old.lookup_obj_page
        &&& self.lookup_tx_cursor == old.lookup_tx_cursor
        &&& self.lookup_tx_cursors == old.lookup_tx_cursors
        &&& self.lookup_tx_has_next == old.lookup_tx_has_next
        &&& self.lookup_tx_page == old.lookup_tx_page
        &&& self.visible_rows == old.visible_rows
        &&& self.pagination_row_y == old.pagination_row_y
    }

    /// Reset state for a new type search.
    pub fn reset_for_search(&mut self, type_filter: &str)
        ensures
            final(self).search_reset_of(old(self), type_filter@),
    {
        self.search_mode = true;
        self.lookup_result = None;
        self.lookup_section = 0;
        self.lookup_depth = 0;
        self.lookup_field_idx = 0;
        self.search_results.clear();
        self.search_selected = 0;
        self.search_offset = 0;
        self.search_has_next = false;
        self.search_cursor = None;
        self.search_cursors.clear();
        self.search_type = owned(type_filter);
    }

    /// A fresh explorer: nothing looked up, fifteen visible rows.
    pub open spec fn is_fresh(&self) -> bool {
        &&& self.overview is None
        &&& self.lookup_result is None
        &&& self.search_results@.len() == 0
        &&& self.search_selected == 0
        &&& self.search_offset == 0
        &&& !self.search_mode
        &&& self.search_type@.len() == 0
        &&& self.search_cursor is None
        &&& !self.search_has_next
        &&& self.search_cursors@.len() == 0
        &&& self.lookup_selected == 0
        &&& self.lookup_offset == 0
        &&& self.cursor() == (0nat, 0nat, 0nat)
        &&& self.lookup_query is None
        &&& self.lookup_address is None
        &&& self.lookup_obj_cursor is None
        &&& self.lookup_obj_cursors@.len() == 0
        &&& !self.lookup_obj_has_next
        &&& self.lookup_obj_page == 0
        &&& self.lookup_tx_cursor is None
        &&& self.lookup_tx_cursors@.len() == 0
        &&& !self.lookup_tx_has_next
        &&& self.lookup_tx_page == 0
        &&& self.visible_rows == 15
        &&& self.pagination_row_y == 0
    }
}

impl Default for ExplorerState {
    fn default() -> (r: Self)
        ensures
            r.is_fresh(),
    {
        ExplorerState {
            overview: None,
            lookup_result: None,
            search_results: Vec::new(),
            search_selected: 0,
            search_offset: 0,
            search_mode: false,
            search_type: String::new(),
            search_cursor: None,
            search_has_next: false,
            search_cursors: Vec::new(),
            lookup_selected: 0,
            lookup_offset: 0,
            lookup_section: 0,
            lookup_depth: 0,
            lookup_field_idx: 0,
            lookup_query: None,
            lookup_address: None,
            lookup_obj_cursor: None,
            lookup_obj_cursors: Vec::new(),
            lookup_obj_has_next: false,
            lookup_obj_page: 0,
            lookup_tx_cursor: None,
            lookup_tx_cursors: Vec::new(),
            lookup_tx_has_next: false,
            lookup_tx_page: 0,
            visible_rows: 15,
            pagination_row_y: 0,
        }
    }
}

// ── Query classification ──────────────────────────────────────────

/// `is_lookup_query`: ids start with `0x`; type strings contain `::`;
/// otherwise a transaction digest is 32 to 44 bytes of letters and digits.
pub open spec fn spec_is_lookup_query(q: Seq<char>) -> bool {
    if has_prefix(q, "0x"@) {
        true
    } else if contains_seq(q, "::"@) {
        false
    } else {
        &&& 32 <= byte_len(q)
        &&& byte_len(q) <= 44
        &&& forall|i: int| 0 <= i < q.len() ==> alphanumeric(#[trigger] q[i])
    }
}

/// Determine whether a query string is a lookup (address/object/tx digest)
/// or a type search.
pub fn is_lookup_query(query: &str) -> (b: bool)
    ensures
        b == spec_is_lookup_query(query@),
{
    let v = chars_of(query);
    let ox = chars_of("0x");
    if starts_with(&v, &ox) {
        return true;
    }
    let sep = chars_of("::");
    if contains_chars(&v, &sep) {
        return false;
    }
    let short = fits_in_bytes(&v, 31);
    let fits = fits_in_bytes(&v, 44);
    if !fits || short {
        return false;
    }
    for i in 0..v.len()
        invariant
            v@ == query@,
            !has_prefix(query@, "0x"@),
            !contains_seq(query@, "::"@),
            32 <= byte_len(query@) <= 44,
            forall|j: int| 0 <= j < i ==> alphanumeric(#[trigger] v@[j]),
    {
        if !is_alphanumeric(v[i]) {
            assert(!alphanumeric(query@[i as int]));
            return false;
        }
    }
    true
}

} // verus!
