//! Keys on the Explorer screen: the lookup input line, the list of a type
//! search and the section tree of a lookup result, with their paging.

use vstd::prelude::*;
use crate::explorer::{
    ExplorerState, is_lookup_query, lemma_cursor_down_moves_one_line,
    lemma_cursor_up_moves_one_line, spec_cursor_down, spec_cursor_up, spec_is_lookup_query,
};
use crate::keys::{Key, handle_input_key};
use crate::lookup::{LookupResult, lines_of, spec_cursor_to_line, valid_cursor};
use crate::state::App;
use crate::types::{InputMode, LookupAction, LookupSection, Screen};
use crate::wallet::WalletCmd;

verus! {

/// What the lookup view leaves for the app to do once a key is handled.
pub enum LookupKeyOutcome {
    /// Nothing more.
    Handled,
    /// Look this address, object or digest up.
    Explore(String),
    /// Search the objects of this type.
    TypeSearch(String),
    /// Open the lookup input line.
    StartInput,
    /// Send this command to the backend.
    Send(WalletCmd),
}

// ── Line counts ───────────────────────────────────────────────────

/// Lines the sections would take with every section unfolded.
pub open spec fn full_lines(secs: Seq<LookupSection>) -> nat
    decreases secs.len(),
{
    if secs.len() == 0 {
        0
    } else {
        full_lines(secs.drop_last()) + 1 + secs.last().fields@.len()
    }
}

proof fn lemma_lines_at_most_full(secs: Seq<LookupSection>)
    ensures
        lines_of(secs) <= full_lines(secs),
    decreases secs.len(),
{
    if secs.len() > 0 {
        lemma_lines_at_most_full(secs.drop_last());
    }
}

proof fn lemma_full_take(secs: Seq<LookupSection>, i: int)
    requires
        0 <= i < secs.len(),
    ensures
        full_lines(secs.take(i)) + 1 + secs[i].fields@.len() <= full_lines(secs),
    decreases secs.len(),
{
    if i == secs.len() - 1 {
        assert(secs.take(i) =~= secs.drop_last());
    } else {
        lemma_full_take(secs.drop_last(), i);
        assert(secs.drop_last().take(i) =~= secs.take(i));
    }
}

proof fn lemma_full_fold(secs: Seq<LookupSection>, i: int, c: bool)
    requires
        0 <= i < secs.len(),
    ensures
        full_lines(secs.update(i, LookupSection { collapsed: c, ..secs[i] })) == full_lines(secs),
    decreases secs.len(),
{
    let t = LookupSection { collapsed: c, ..secs[i] };
    if i == secs.len() - 1 {
        assert(secs.update(i, t).drop_last() =~= secs.drop_last());
    } else {
        lemma_full_fold(secs.drop_last(), i, c);
        assert(secs.update(i, t).drop_last() =~= secs.drop_last().update(i, t));
    }
}

/// The line of a cursor is at most the unfolded line count plus its field
/// index and one; on a field that exists it is below the unfolded count.
proof fn lemma_cursor_line_bound(secs: Seq<LookupSection>, s: nat, d: nat, f: nat)
    ensures
        spec_cursor_to_line(secs, s, d, f) <= full_lines(secs) + 1 + f,
        s < secs.len() && f < secs[s as int].fields@.len() ==> spec_cursor_to_line(secs, s, d, f)
            < full_lines(secs),
{
    if s < secs.len() {
        lemma_lines_at_most_full(secs.take(s as int));
        lemma_full_take(secs, s as int);
    } else {
        lemma_lines_at_most_full(secs);
    }
}

/// Offset that brings line `target` into a window of `rows` lines.
pub open spec fn spec_scroll_to_line(target: nat, offset: nat, rows: nat) -> int {
    if target < offset {
        target as int
    } else if target >= offset + rows {
        target + 1 - rows
    } else {
        offset as int
    }
}

fn clone_cursor(c: &Option<String>) -> (r: Option<String>)
    ensures
        r == *c,
{
    match c {
        Some(s) => Some(s.clone()),
        None => None,
    }
}

fn pop_cursor(v: &mut Vec<Option<String>>) -> (r: Option<String>)
    ensures
        old(v)@.len() > 0 ==> final(v)@ == old(v)@.drop_last() && r == old(v)@.last(),
        old(v)@.len() == 0 ==> final(v)@ == old(v)@ && r is None,
{
    match v.pop() {
        Some(c) => c,
        None => None,
    }
}

impl ExplorerState {
    /// A type search has results on screen.
    pub open spec fn shows_search(&self) -> bool {
        self.search_results@.len() > 0
    }

    /// An address lookup is on screen, with no search results over it.
    pub open spec fn shows_address(&self) -> bool {
        &&& self.search_results@.len() == 0
        &&& self.lookup_address is Some
        &&& self.lookup_result matches Some(LookupResult::Address { .. })
    }

    /// Only the two scroll offsets differ from `o`.
    pub open spec fn same_but_offsets(&self, o: &ExplorerState) -> bool {
        *self == (ExplorerState {
            search_offset: self.search_offset,
            lookup_offset: self.lookup_offset,
            ..*o
        })
    }

    /// The offsets after the closing scroll: the selected search row, or the
    /// tree cursor of a lookup result, brought into view from the given
    /// offsets.
    pub open spec fn offsets_follow(&self, search_offset: usize, lookup_offset: usize) -> bool {
        if self.shows_search() {
            &&& self.search_offset == App::spec_scroll_into_view(
                self.search_selected as nat,
                search_offset as nat,
                self.visible_rows as nat,
            )
            &&& self.lookup_offset == lookup_offset
        } else if self.lookup_result is Some {
            &&& self.search_offset == search_offset
            &&& self.lookup_offset == spec_scroll_to_line(
                spec_cursor_to_line(
                    self.result_sections(),
                    self.lookup_section as nat,
                    self.lookup_depth as nat,
                    self.lookup_field_idx as nat,
                ),
                lookup_offset as nat,
                self.visible_rows as nat,
            )
        } else {
            &&& self.search_offset == search_offset
            &&& self.lookup_offset == lookup_offset
        }
    }

    /// Bring the selected search row, or the tree cursor, into view.
    fn scroll_view(&mut self)
        requires
            old(self).search_offset + old(self).visible_rows <= usize::MAX,
            old(self).lookup_offset + old(self).visible_rows <= usize::MAX,
            !old(self).shows_search() && old(self).lookup_result is Some ==> spec_cursor_to_line(
                old(self).result_sections(),
                old(self).lookup_section as nat,
                old(self).lookup_depth as nat,
                old(self).lookup_field_idx as nat,
            ) < usize::MAX,
        ensures
            final(self).same_but_offsets(old(self)),
            final(self).offsets_follow(old(self).search_offset, old(self).lookup_offset),
    {
        if self.search_results.len() > 0 {
            App::scroll_into_view(self.search_selected, &mut self.search_offset, self.visible_rows);
        } else {
            match &self.lookup_result {
                Some(r) => {
                    r.scroll_cursor_into_view(
                        self.lookup_section,
                        self.lookup_depth,
                        self.lookup_field_idx,
                        &mut self.lookup_offset,
                        self.visible_rows,
                    );
                },
                None => {},
            }
        }
    }
}

impl ExplorerState {
    /// This state with the scroll offsets of `o`.
    pub open spec fn unscrolled(&self, o: &ExplorerState) -> ExplorerState {
        ExplorerState { search_offset: o.search_offset, lookup_offset: o.lookup_offset, ..*self }
    }

    /// What the view asks of the app after `key`.
    pub open spec fn spec_lookup_outcome(&self, key: Key) -> LookupKeyOutcome {
        match key {
            Key::Enter => self.enter_outcome(),
            Key::Char(c) => if c == ']' {
                self.next_page_outcome()
            } else if c == '[' {
                self.prev_page_outcome()
            } else {
                LookupKeyOutcome::Handled
            },
            _ => LookupKeyOutcome::Handled,
        }
    }

    /// Enter explores the selected search row; else, on a lookup result, it
    /// follows the action of the field under the cursor; with nothing on
    /// screen it opens the input line.
    pub open spec fn enter_outcome(&self) -> LookupKeyOutcome {
        let secs = self.result_sections();
        let s = self.lookup_section as int;
        let f = self.lookup_field_idx as int;
        if self.search_selected < self.search_results@.len() {
            LookupKeyOutcome::Explore(self.search_results@[self.search_selected as int].object_id)
        } else if self.lookup_result is None {
            LookupKeyOutcome::StartInput
        } else if self.lookup_depth != 0 && s < secs.len() && f < secs[s].fields@.len() {
            match secs[s].fields@[f].action {
                Some(LookupAction::Explore(v)) => LookupKeyOutcome::Explore(v),
                Some(LookupAction::TypeSearch(v)) => LookupKeyOutcome::TypeSearch(v),
                None => LookupKeyOutcome::Handled,
            }
        } else {
            LookupKeyOutcome::Handled
        }
    }

    /// `]` fetches the next page of the type search, or of the objects and
    /// transactions of the address on screen.
    pub open spec fn next_page_outcome(&self) -> LookupKeyOutcome {
        if self.shows_search() && self.search_has_next {
            LookupKeyOutcome::Send(
                WalletCmd::SearchObjectsByType {
                    type_filter: self.search_type,
                    cursor: self.search_cursor,
                },
            )
        } else if self.shows_address() && (self.lookup_obj_has_next || self.lookup_tx_has_next) {
            LookupKeyOutcome::Send(
                WalletCmd::LookupAddressPage {
                    address: self.lookup_address->0,
                    obj_cursor: self.lookup_obj_cursor,
                    tx_cursor: self.lookup_tx_cursor,
                },
            )
        } else {
            LookupKeyOutcome::Handled
        }
    }

    /// `[` fetches the page before, from the cursors saved on the way
    /// forward.
    pub open spec fn prev_page_outcome(&self) -> LookupKeyOutcome {
        if self.shows_search() && self.search_cursors@.len() > 0 {
            LookupKeyOutcome::Send(
                WalletCmd::SearchObjectsByType {
                    type_filter: self.search_type,
                    cursor: self.search_cursors@.last(),
                },
            )
        } else if self.shows_address() && self.lookup_obj_cursors@.len() > 0 {
            LookupKeyOutcome::Send(
                WalletCmd::LookupAddressPage {
                    address: self.lookup_address->0,
                    obj_cursor: self.lookup_obj_cursors@.last(),
                    tx_cursor: if self.lookup_tx_cursors@.len() > 0 {
                        self.lookup_tx_cursors@.last()
                    } else {
                        None
                    },
                },
            )
        } else {
            LookupKeyOutcome::Handled
        }
    }

    /// The explorer after Enter: the search results are dropped when one is
    /// explored; the heading under the cursor is folded or unfolded.
    pub open spec fn enter_effect(&self, n: &ExplorerState) -> bool {
        let secs = self.result_sections();
        let s = self.lookup_section;
        if self.search_selected < self.search_results@.len() {
            &&& n.search_results@.len() == 0
            &&& *n == (ExplorerState { search_results: n.search_results, ..*self })
        } else if self.lookup_result is None {
            &&& n.same_but_offsets(self)
            &&& n.offsets_follow(self.search_offset, self.lookup_offset)
        } else if self.lookup_depth == 0 && s < secs.len() {
            &&& n.folded_from(self, s as nat, !secs[s as int].collapsed)
            &&& *n == (ExplorerState { lookup_result: n.lookup_result, ..*self })
        } else {
            *n == *self
        }
    }

    /// Esc drops the lookup result and the search results, with the search
    /// paging and the tree cursor.
    pub open spec fn cleared_from(&self, o: &ExplorerState) -> bool {
        &&& self.search_results@.len() == 0
        &&& self.search_cursors@.len() == 0
        &&& *self == (ExplorerState {
            lookup_result: None,
            search_results: self.search_results,
            search_selected: 0,
            lookup_selected: 0,
            lookup_offset: 0,
            lookup_section: 0,
            lookup_depth: 0,
            lookup_field_idx: 0,
            search_has_next: false,
            search_cursor: None,
            search_cursors: self.search_cursors,
            ..*o
        })
    }

    /// Up: the row above in the search list, else the tree cursor up.
    pub open spec fn up_effect(&self, m: &ExplorerState) -> bool {
        if self.shows_search() {
            *m == (ExplorerState {
                search_selected: if self.search_selected > 0 {
                    (self.search_selected - 1) as usize
                } else {
                    self.search_selected
                },
                ..*self
            })
        } else if self.lookup_result is Some {
            &&& m.cursor() == spec_cursor_up(
                self.result_sections(),
                self.lookup_section as nat,
                self.lookup_depth as nat,
                self.lookup_field_idx as nat,
            )
            &&& m.same_but_cursor(self)
        } else {
            *m == *self
        }
    }

    /// Down: the row below in the search list, else the tree cursor down.
    pub open spec fn down_effect(&self, m: &ExplorerState) -> bool {
        if self.shows_search() {
            *m == (ExplorerState {
                search_selected: if self.search_selected + 1 < self.search_results@.len() {
                    (self.search_selected + 1) as usize
                } else {
                    self.search_selected
                },
                ..*self
            })
        } else if self.lookup_result is Some {
            &&& m.cursor() == spec_cursor_down(
                self.result_sections(),
                self.lookup_section as nat,
                self.lookup_depth as nat,
                self.lookup_field_idx as nat,
            )
            &&& m.same_but_cursor(self)
        } else {
            *m == *self
        }
    }

    /// Left: from a field back to its heading; on a heading, fold it.
    pub open spec fn left_effect(&self, m: &ExplorerState) -> bool {
        let s = self.lookup_section;
        if self.lookup_result is None {
            *m == *self
        } else if self.lookup_depth == 1 {
            &&& m.cursor() == (s as nat, 0nat, 0nat)
            &&& m.same_but_cursor(self)
        } else {
            &&& m.cursor() == self.cursor()
            &&& m.folded_from(self, s as nat, true)
            &&& m.same_but_cursor_and_result(self)
        }
    }

    /// Right: on a heading, unfold it, or step into its first field.
    pub open spec fn right_effect(&self, m: &ExplorerState) -> bool {
        let secs = self.result_sections();
        let s = self.lookup_section;
        if self.lookup_result is Some && s < secs.len() && self.lookup_depth == 0 {
            if secs[s as int].collapsed {
                &&& m.cursor() == self.cursor()
                &&& m.folded_from(self, s as nat, false)
                &&& m.same_but_cursor_and_result(self)
            } else if secs[s as int].fields@.len() > 0 {
                &&& m.cursor() == (s as nat, 1nat, 0nat)
                &&& m.same_but_cursor(self)
            } else {
                *m == *self
            }
        } else {
            *m == *self
        }
    }

    /// Home: the first search row and the first heading.
    pub open spec fn home_effect(&self, m: &ExplorerState) -> bool {
        *m == (ExplorerState {
            search_selected: 0,
            lookup_section: 0,
            lookup_depth: 0,
            lookup_field_idx: 0,
            ..*self
        })
    }

    /// End: the last search row, else the last heading.
    pub open spec fn end_effect(&self, m: &ExplorerState) -> bool {
        let secs = self.result_sections();
        if self.shows_search() {
            *m == (ExplorerState {
                search_selected: (self.search_results@.len() - 1) as usize,
                ..*self
            })
        } else if self.lookup_result is Some && secs.len() > 0 {
            *m == (ExplorerState {
                lookup_section: (secs.len() - 1) as usize,
                lookup_depth: 0,
                lookup_field_idx: 0,
                ..*self
            })
        } else {
            *m == *self
        }
    }

    /// `]`: the cursor of the page on screen is saved for the way back, and
    /// an address's page numbers advance.
    pub open spec fn next_page_effect(&self, m: &ExplorerState) -> bool {
        if self.shows_search() && self.search_has_next {
            &&& m.search_cursors@ == self.search_cursors@.push(self.search_cursor)
            &&& *m == (ExplorerState { search_cursors: m.search_cursors, ..*self })
        } else if self.shows_address() && (self.lookup_obj_has_next || self.lookup_tx_has_next) {
            &&& m.lookup_obj_cursors@ == self.lookup_obj_cursors@.push(self.lookup_obj_cursor)
            &&& m.lookup_tx_cursors@ == self.lookup_tx_cursors@.push(self.lookup_tx_cursor)
            &&& *m == (ExplorerState {
                lookup_obj_cursors: m.lookup_obj_cursors,
                lookup_tx_cursors: m.lookup_tx_cursors,
                lookup_obj_page: (self.lookup_obj_page + 1) as usize,
                lookup_tx_page: (self.lookup_tx_page + 1) as usize,
                ..*self
            })
        } else {
            *m == *self
        }
    }

    /// `[`: the last saved cursor is taken back, and an address's page
    /// numbers go down (not below zero).
    pub open spec fn prev_page_effect(&self, m: &ExplorerState) -> bool {
        if self.shows_search() && self.search_cursors@.len() > 0 {
            &&& m.search_cursors@ == self.search_cursors@.drop_last()
            &&& *m == (ExplorerState { search_cursors: m.search_cursors, ..*self })
        } else if self.shows_address() && self.lookup_obj_cursors@.len() > 0 {
            &&& m.lookup_obj_cursors@ == self.lookup_obj_cursors@.drop_last()
            &&& m.lookup_tx_cursors@ == if self.lookup_tx_cursors@.len() > 0 {
                self.lookup_tx_cursors@.drop_last()
            } else {
                self.lookup_tx_cursors@
            }
            &&& *m == (ExplorerState {
                lookup_obj_cursors: m.lookup_obj_cursors,
                lookup_tx_cursors: m.lookup_tx_cursors,
                lookup_obj_page: if self.lookup_obj_page > 0 {
                    (self.lookup_obj_page - 1) as usize
                } else {
                    0
                },
                lookup_tx_page: if self.lookup_tx_page > 0 {
                    (self.lookup_tx_page - 1) as usize
                } else {
                    0
                },
                ..*self
            })
        } else {
            *m == *self
        }
    }

    /// The state after a key other than Enter and Esc, before the scroll.
    pub open spec fn moved_by(&self, m: &ExplorerState, key: Key) -> bool {
        match key {
            Key::Up => self.up_effect(m),
            Key::Down => self.down_effect(m),
            Key::Left => self.left_effect(m),
            Key::Right => self.right_effect(m),
            Key::Home => self.home_effect(m),
            Key::End => self.end_effect(m),
            Key::Char(c) => if c == ']' {
                self.next_page_effect(m)
            } else if c == '[' {
                self.prev_page_effect(m)
            } else {
                *m == *self
            },
            _ => *m == *self,
        }
    }

    /// The explorer after `key` on the lookup view, the closing scroll
    /// included.
    pub open spec fn lookup_key_effect(&self, n: &ExplorerState, key: Key) -> bool {
        match key {
            Key::Enter => self.enter_effect(n),
            Key::Esc => n.cleared_from(self),
            _ => {
                &&& self.moved_by(&n.unscrolled(self), key)
                &&& n.offsets_follow(self.search_offset, self.lookup_offset)
            },
        }
    }

    /// What the lookup view needs to handle `key` without overflow or an
    /// index out of range: the scroll windows and the line count fit in
    /// `usize`, the tree cursor stands where moving it up or down can read
    /// its section, and an address's page numbers can advance.
    pub open spec fn lookup_key_ok(&self, key: Key) -> bool {
        let secs = self.result_sections();
        &&& self.search_offset + self.visible_rows <= usize::MAX
        &&& self.lookup_offset + self.visible_rows <= usize::MAX
        &&& full_lines(secs) + self.lookup_field_idx + 1 < usize::MAX
        &&& key == Key::Up && !self.shows_search() && self.lookup_result is Some ==> self.lookup_depth
            == 1 || self.lookup_section <= secs.len()
        &&& key == Key::Down && !self.shows_search() && self.lookup_result is Some ==> secs.len()
            == 0 || self.lookup_section < secs.len()
        &&& key == Key::Char(']') && !(self.shows_search() && self.search_has_next)
            && self.shows_address() && (self.lookup_obj_has_next || self.lookup_tx_has_next)
            ==> self.lookup_obj_page < usize::MAX && self.lookup_tx_page < usize::MAX
    }
}

impl ExplorerState {
    fn enter_key(&mut self) -> (out: LookupKeyOutcome)
        requires
            old(self).search_offset + old(self).visible_rows <= usize::MAX,
            old(self).lookup_offset + old(self).visible_rows <= usize::MAX,
        ensures
            out == old(self).enter_outcome(),
            old(self).enter_effect(final(self)),
    {
        if self.search_selected < self.search_results.len() {
            let id = self.search_results[self.search_selected].object_id.clone();
            self.search_results.clear();
            return LookupKeyOutcome::Explore(id);
        }
        let s = self.lookup_section;
        let f = self.lookup_field_idx;
        let fold: Option<bool> = match &self.lookup_result {
            None => {
                self.scroll_view();
                return LookupKeyOutcome::StartInput;
            },
            Some(r) => {
                let secs = r.sections();
                if self.lookup_depth == 0 {
                    if s < secs.len() {
                        Some(secs[s].collapsed)
                    } else {
                        None
                    }
                } else {
                    if s < secs.len() && f < secs[s].fields.len() {
                        match &secs[s].fields[f].action {
                            Some(LookupAction::Explore(v)) => {
                                return LookupKeyOutcome::Explore(v.clone());
                            },
                            Some(LookupAction::TypeSearch(v)) => {
                                return LookupKeyOutcome::TypeSearch(v.clone());
                            },
                            None => {},
                        }
                    }
                    None
                }
            },
        };
        match fold {
            Some(c) => {
                match &mut self.lookup_result {
                    Some(r) => r.set_collapsed(s, !c),
                    None => {},
                }
            },
            None => {},
        }
        LookupKeyOutcome::Handled
    }

    fn clear_results(&mut self)
        ensures
            final(self).cleared_from(old(self)),
    {
        self.lookup_result = None;
        self.search_results.clear();
        self.search_selected = 0;
        self.lookup_selected = 0;
        self.lookup_offset = 0;
        self.lookup_section = 0;
        self.lookup_depth = 0;
        self.lookup_field_idx = 0;
        self.search_has_next = false;
        self.search_cursor = None;
        self.search_cursors.clear();
    }

    fn up_key(&mut self)
        requires
            old(self).lookup_key_ok(Key::Up),
        ensures
            old(self).up_effect(final(self)),
    {
        if self.search_results.len() > 0 {
            if self.search_selected > 0 {
                self.search_selected = self.search_selected - 1;
            }
        } else if self.lookup_result.is_some() {
            self.lookup_cursor_up();
        }
    }

    fn down_key(&mut self)
        requires
            old(self).lookup_key_ok(Key::Down),
        ensures
            old(self).down_effect(final(self)),
    {
        let n = self.search_results.len();
        if n > 0 {
            if self.search_selected < n - 1 {
                self.search_selected = self.search_selected + 1;
            }
        } else if self.lookup_result.is_some() {
            self.lookup_cursor_down();
        }
    }

    fn end_key(&mut self)
        ensures
            old(self).end_effect(final(self)),
    {
        let n = self.search_results.len();
        if n > 0 {
            self.search_selected = n - 1;
            return ;
        }
        let count = match &self.lookup_result {
            Some(r) => r.sections().len(),
            None => 0,
        };
        if count > 0 {
            self.lookup_section = count - 1;
            self.lookup_depth = 0;
            self.lookup_field_idx = 0;
        }
    }

    fn showing_address(&self) -> (b: bool)
        ensures
            b == self.shows_address(),
    {
        self.search_results.len() == 0 && self.lookup_address.is_some() && match &self.lookup_result {
            Some(LookupResult::Address { .. }) => true,
            _ => false,
        }
    }

    fn next_page_key(&mut self) -> (out: LookupKeyOutcome)
        requires
            old(self).lookup_key_ok(Key::Char(']')),
        ensures
            out == old(self).next_page_outcome(),
            old(self).next_page_effect(final(self)),
    {
        if self.search_results.len() > 0 && self.search_has_next {
            let cursor = clone_cursor(&self.search_cursor);
            self.search_cursors.push(clone_cursor(&self.search_cursor));
            return LookupKeyOutcome::Send(
                WalletCmd::SearchObjectsByType { type_filter: self.search_type.clone(), cursor },
            );
        }
        if self.showing_address() && (self.lookup_obj_has_next || self.lookup_tx_has_next) {
            let address = match &self.lookup_address {
                Some(a) => a.clone(),
                None => String::new(),
            };
            let obj_cursor = clone_cursor(&self.lookup_obj_cursor);
            let tx_cursor = clone_cursor(&self.lookup_tx_cursor);
            self.lookup_obj_cursors.push(clone_cursor(&self.lookup_obj_cursor));
            self.lookup_tx_cursors.push(clone_cursor(&self.lookup_tx_cursor));
            self.lookup_obj_page = self.lookup_obj_page + 1;
            self.lookup_tx_page = self.lookup_tx_page + 1;
            return LookupKeyOutcome::Send(
                WalletCmd::LookupAddressPage { address, obj_cursor, tx_cursor },
            );
        }
        LookupKeyOutcome::Handled
    }

    fn prev_page_key(&mut self) -> (out: LookupKeyOutcome)
        ensures
            out == old(self).prev_page_outcome(),
            old(self).prev_page_effect(final(self)),
    {
        if self.search_results.len() > 0 && self.search_cursors.len() > 0 {
            let cursor = pop_cursor(&mut self.search_cursors);
            return LookupKeyOutcome::Send(
                WalletCmd::SearchObjectsByType { type_filter: self.search_type.clone(), cursor },
            );
        }
        if self.showing_address() && self.lookup_obj_cursors.len() > 0 {
            let obj_cursor = pop_cursor(&mut self.lookup_obj_cursors);
            let tx_cursor = pop_cursor(&mut self.lookup_tx_cursors);
            if self.lookup_obj_page > 0 {
                self.lookup_obj_page = self.lookup_obj_page - 1;
            }
            if self.lookup_tx_page > 0 {
                self.lookup_tx_page = self.lookup_tx_page - 1;
            }
            let address = match &self.lookup_address {
                Some(a) => a.clone(),
                None => String::new(),
            };
            return LookupKeyOutcome::Send(
                WalletCmd::LookupAddressPage { address, obj_cursor, tx_cursor },
            );
        }
        LookupKeyOutcome::Handled
    }
}

/// After any move the tree cursor's line still fits in `usize`.
proof fn lemma_moved_line_fits(o: ExplorerState, m: ExplorerState, key: Key)
    requires
        o.lookup_key_ok(key),
        o.moved_by(&m, key),
    ensures
        !m.shows_search() && m.lookup_result is Some ==> spec_cursor_to_line(
            m.result_sections(),
            m.lookup_section as nat,
            m.lookup_depth as nat,
            m.lookup_field_idx as nat,
        ) < usize::MAX,
{
    let secs = o.result_sections();
    let ms = m.result_sections();
    let s = o.lookup_section as int;
    if s < secs.len() {
        lemma_full_fold(secs, s, true);
        lemma_full_fold(secs, s, false);
    }
    assert(full_lines(ms) == full_lines(secs));
    lemma_cursor_line_bound(
        ms,
        m.lookup_section as nat,
        m.lookup_depth as nat,
        m.lookup_field_idx as nat,
    );
    assert(m.lookup_field_idx <= o.lookup_field_idx || (m.lookup_section < ms.len()
        && m.lookup_field_idx < ms[m.lookup_section as int].fields@.len()));
}

impl ExplorerState {
    fn move_by_key(&mut self, key: Key) -> (out: LookupKeyOutcome)
        requires
            old(self).lookup_key_ok(key),
            key != Key::Enter,
            key != Key::Esc,
        ensures
            out == old(self).spec_lookup_outcome(key),
            old(self).moved_by(final(self), key),
    {
        match key {
            Key::Up => self.up_key(),
            Key::Down => self.down_key(),
            Key::Left => {
                if self.lookup_result.is_some() {
                    self.lookup_cursor_left();
                }
            },
            Key::Right => self.lookup_cursor_right(),
            Key::Home => {
                self.search_selected = 0;
                self.lookup_section = 0;
                self.lookup_depth = 0;
                self.lookup_field_idx = 0;
            },
            Key::End => self.end_key(),
            Key::Char(c) => {
                if c == ']' {
                    return self.next_page_key();
                } else if c == '[' {
                    return self.prev_page_key();
                }
            },
            _ => {},
        }
        LookupKeyOutcome::Handled
    }

    /// Handle a key on the lookup view: Enter explores or follows a field,
    /// Esc clears, arrows move through the search list or the section tree,
    /// `]` and `[` page; the selection is then scrolled into view.
    pub fn lookup_view_key(&mut self, key: Key) -> (out: LookupKeyOutcome)
        requires
            old(self).lookup_key_ok(key),
        ensures
            out == old(self).spec_lookup_outcome(key),
            old(self).lookup_key_effect(final(self), key),
    {
        match key {
            Key::Enter => {
                return self.enter_key();
            },
            Key::Esc => {
                self.clear_results();
                return LookupKeyOutcome::Handled;
            },
            _ => {},
        }
        let ghost o = *self;
        let out = self.move_by_key(key);
        let ghost mid = *self;
        proof {
            lemma_moved_line_fits(o, mid, key);
        }
        self.scroll_view();
        assert(self.unscrolled(&o) == mid);
        out
    }
}

impl App {
    /// Enter on the lookup input line: the typed text is looked up when it
    /// reads as an id or a digest, else searched for as a type; empty text
    /// only closes the line.
    pub open spec fn lookup_submitted(&self, o: &App) -> bool {
        let q = o.input_buffer;
        &&& self.input_buffer@.len() == 0
        &&& if q@.len() == 0 {
            *self == (App {
                input_mode: InputMode::Normal,
                input_buffer: self.input_buffer,
                input_cursor: 0,
                ..*o
            })
        } else if spec_is_lookup_query(q@) {
            &&& self.outbox@ == o.outbox@.push(WalletCmd::LookupAddress(q))
            &&& *self == (App {
                input_mode: InputMode::Normal,
                input_buffer: self.input_buffer,
                input_cursor: 0,
                outbox: self.outbox,
                explorer: ExplorerState {
                    search_mode: false,
                    lookup_query: Some(q),
                    lookup_address: Some(q),
                    ..o.explorer
                },
                ..*o
            })
        } else {
            &&& self.explorer.search_cursors@.len() == 0
            &&& self.outbox@ == o.outbox@.push(
                WalletCmd::SearchObjectsByType { type_filter: q, cursor: None },
            )
            &&& *self == (App {
                input_mode: InputMode::Normal,
                input_buffer: self.input_buffer,
                input_cursor: 0,
                outbox: self.outbox,
                explorer: ExplorerState {
                    search_mode: true,
                    search_type: q,
                    search_cursors: self.explorer.search_cursors,
                    search_has_next: false,
                    search_cursor: None,
                    ..o.explorer
                },
                ..*o
            })
        }
    }

    /// A key on the lookup view, with what it asked of the app done:
    /// exploring, a type search, opening the input line or a command.
    pub open spec fn lookup_view_applied(&self, o: &App, key: Key) -> bool {
        match o.explorer.spec_lookup_outcome(key) {
            LookupKeyOutcome::Explore(v) => self.explored(o, v),
            LookupKeyOutcome::TypeSearch(v) => {
                &&& self.explorer.search_reset_of(&o.explorer, v@)
                &&& self.outbox@ == o.outbox@.push(
                    WalletCmd::SearchObjectsByType { type_filter: v, cursor: None },
                )
                &&& *self == (App {
                    screen: Screen::Explorer,
                    input_mode: InputMode::Normal,
                    popup: None,
                    popup_scroll: 0,
                    explorer: self.explorer,
                    outbox: self.outbox,
                    ..*o
                })
            },
            LookupKeyOutcome::StartInput => {
                &&& o.explorer.lookup_key_effect(&self.explorer, key)
                &&& self.input_buffer@.len() == 0
                &&& *self == (App {
                    input_mode: InputMode::Editing,
                    input_buffer: self.input_buffer,
                    input_cursor: 0,
                    explorer: self.explorer,
                    ..*o
                })
            },
            LookupKeyOutcome::Send(c) => {
                &&& o.explorer.lookup_key_effect(&self.explorer, key)
                &&& self.outbox@ == o.outbox@.push(c)
                &&& *self == (App { explorer: self.explorer, outbox: self.outbox, ..*o })
            },
            LookupKeyOutcome::Handled => {
                &&& o.explorer.lookup_key_effect(&self.explorer, key)
                &&& *self == (App { explorer: self.explorer, ..*o })
            },
        }
    }

    /// What `handle_explorer_key` did with `key`: on the input line, edit,
    /// submit or close it; else handle the key on the lookup view.
    #[verifier::opaque]
    pub open spec fn explorer_key_handled(&self, o: &App, key: Key) -> bool {
        if o.input_mode == InputMode::Editing {
            match key {
                Key::Enter => self.lookup_submitted(o),
                Key::Esc => {
                    &&& self.input_buffer@.len() == 0
                    &&& *self == (App {
                        input_mode: InputMode::Normal,
                        input_buffer: self.input_buffer,
                        input_cursor: 0,
                        ..*o
                    })
                },
                _ => self.edited_by(o, key),
            }
        } else {
            self.lookup_view_applied(o, key)
        }
    }

    /// What `handle_explorer_key` needs: an input line in order while
    /// editing, else what the lookup view needs.
    pub open spec fn explorer_key_ok(&self, key: Key) -> bool {
        if self.input_mode == InputMode::Editing {
            key != Key::Enter && key != Key::Esc ==> self.input_ok()
        } else {
            self.explorer.lookup_key_ok(key)
        }
    }
}

impl ExplorerState {
    fn mark_lookup(&mut self, q: &String)
        ensures
            *final(self) == (ExplorerState {
                search_mode: false,
                lookup_query: Some(*q),
                lookup_address: Some(*q),
                ..*old(self)
            }),
    {
        self.search_mode = false;
        self.lookup_query = Some(q.clone());
        self.lookup_address = Some(q.clone());
    }

    fn mark_search(&mut self, q: &String)
        ensures
            final(self).search_cursors@.len() == 0,
            *final(self) == (ExplorerState {
                search_mode: true,
                search_type: *q,
                search_cursors: final(self).search_cursors,
                search_has_next: false,
                search_cursor: None,
                ..*old(self)
            }),
    {
        self.search_mode = true;
        self.search_type = q.clone();
        self.search_cursors.clear();
        self.search_has_next = false;
        self.search_cursor = None;
    }
}

#[verifier::rlimit(30)]
fn submit_lookup(app: &mut App)
    ensures
        final(app).lookup_submitted(old(app)),
{
    let query = app.stop_input();
    if query.as_str().is_empty() {
        return ;
    }
    if is_lookup_query(query.as_str()) {
        app.explorer.mark_lookup(&query);
        app.send_cmd(WalletCmd::LookupAddress(query));
        return ;
    }
    app.explorer.mark_search(&query);
    app.send_cmd(WalletCmd::SearchObjectsByType { type_filter: query, cursor: None });
}

/// Explorer screen keys: the lookup input line while editing, else the
/// lookup view (see `ExplorerState::lookup_view_key`), whose request is
/// then carried out.
pub fn handle_explorer_key(app: &mut App, key: Key)
    requires
        old(app).explorer_key_ok(key),
    ensures
        final(app).explorer_key_handled(old(app), key),
{
    if app.input_mode == InputMode::Editing {
        match key {
            Key::Enter => {
                submit_lookup(app);
            },
            Key::Esc => {
                let _ = app.stop_input();
            },
            _ => {
                handle_input_key(app, key);
            },
        }
        proof {
            reveal(App::explorer_key_handled);
        }
        return ;
    }
    let out = app.explorer.lookup_view_key(key);
    match out {
        LookupKeyOutcome::Explore(v) => {
            app.explore_item(v);
        },
        LookupKeyOutcome::TypeSearch(v) => {
            app.explore_type(v);
        },
        LookupKeyOutcome::StartInput => {
            proof {
                reveal_strlit("");
            }
            app.start_input("");
        },
        LookupKeyOutcome::Send(c) => {
            app.send_cmd(c);
        },
        LookupKeyOutcome::Handled => {},
    }
    proof {
        reveal(App::explorer_key_handled);
    }
}

/// The offset that brings a line into a window of at least one row puts it
/// inside the window.
proof fn lemma_scroll_to_line_shows(target: nat, offset: nat, rows: nat)
    requires
        rows > 0,
    ensures
        spec_scroll_to_line(target, offset, rows) <= target < spec_scroll_to_line(
            target,
            offset,
            rows,
        ) + rows,
{
}

/// On a lookup result with no search list over it, Up, Down, Home and End
/// leave the sections as they were, keep a visible tree cursor visible, and
/// scroll so that its line lies in the window (of at least one row).
pub proof fn lemma_lookup_keys_keep_cursor_visible(n: App, o: App, key: Key)
    requires
        o.input_mode == InputMode::Normal,
        o.explorer.search_results@.len() == 0,
        o.explorer.lookup_result is Some,
        o.explorer.visible_rows > 0,
        key == Key::Up || key == Key::Down || key == Key::Home || key == Key::End,
        valid_cursor(
            o.explorer.result_sections(),
            o.explorer.lookup_section as nat,
            o.explorer.lookup_depth as nat,
            o.explorer.lookup_field_idx as nat,
        ),
        n.explorer_key_handled(&o, key),
    ensures
        n.explorer.result_sections() == o.explorer.result_sections(),
        valid_cursor(
            n.explorer.result_sections(),
            n.explorer.lookup_section as nat,
            n.explorer.lookup_depth as nat,
            n.explorer.lookup_field_idx as nat,
        ),
        n.explorer.lookup_offset <= spec_cursor_to_line(
            n.explorer.result_sections(),
            n.explorer.lookup_section as nat,
            n.explorer.lookup_depth as nat,
            n.explorer.lookup_field_idx as nat,
        ) < n.explorer.lookup_offset + n.explorer.visible_rows,
{
    reveal(App::explorer_key_handled);
    let e = o.explorer;
    let secs = e.result_sections();
    let s = e.lookup_section as nat;
    let d = e.lookup_depth as nat;
    let f = e.lookup_field_idx as nat;
    assert(e.spec_lookup_outcome(key) == LookupKeyOutcome::Handled);
    assert(e.lookup_key_effect(&n.explorer, key));
    let m = n.explorer.unscrolled(&e);
    assert(e.moved_by(&m, key));
    if key == Key::Up {
        lemma_cursor_up_moves_one_line(secs, s, d, f);
    } else if key == Key::Down {
        lemma_cursor_down_moves_one_line(secs, s, d, f);
    }
    assert(m.lookup_result == e.lookup_result);
    assert(m.search_results == e.search_results);
    assert(m.visible_rows == e.visible_rows);
    assert(valid_cursor(secs, m.lookup_section as nat, m.lookup_depth as nat, m.lookup_field_idx as nat));
    lemma_scroll_to_line_shows(
        spec_cursor_to_line(
            secs,
            n.explorer.lookup_section as nat,
            n.explorer.lookup_depth as nat,
            n.explorer.lookup_field_idx as nat,
        ),
        e.lookup_offset as nat,
        e.visible_rows as nat,
    );
}

} // verus!
