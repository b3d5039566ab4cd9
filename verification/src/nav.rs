//! List navigation: moving a selection by keys or by a scroll delta, and
//! keeping it on screen.

use vstd::prelude::*;
use crate::explorer::ExplorerState;
use crate::lookup::lines_of;
use crate::state::App;
use crate::tx_builder::TxBuilderState;
use crate::types::{Screen, TxBuilderStep};

verus! {

/// The navigation keys a list reacts to.
#[derive(Debug, Clone, Copy, PartialEq, Eq, Structural)]
pub enum NavKey {
    Up,
    Down,
    Home,
    End,
    PageUp,
    PageDown,
    /// Any other key: not handled by the list.
    Other,
}

/// A list's navigation state.
pub struct ListNav {
    pub selected: usize,
    pub offset: usize,
    pub len: usize,
    pub visible_rows: usize,
}

/// The selection after a navigation key, or `None` for a key lists ignore.
pub open spec fn nav_target(sel: nat, len: nat, key: NavKey) -> Option<nat> {
    match key {
        NavKey::Up => Some(
            if sel > 0 {
                (sel - 1) as nat
            } else {
                sel
            },
        ),
        NavKey::Down => Some(
            if sel + 1 < len {
                sel + 1
            } else {
                sel
            },
        ),
        NavKey::Home => Some(0),
        NavKey::End => Some(
            if len > 0 {
                (len - 1) as nat
            } else {
                sel
            },
        ),
        NavKey::PageUp => Some(
            if sel >= 10 {
                (sel - 10) as nat
            } else {
                0
            },
        ),
        NavKey::PageDown => {
            let last: nat = if len > 0 {
                (len - 1) as nat
            } else {
                0
            };
            Some(
                if sel + 10 < last {
                    sel + 10
                } else {
                    last
                },
            )
        },
        NavKey::Other => None,
    }
}

impl ListNav {
    /// Handle standard navigation keys. Returns `true` if the key was consumed.
    pub fn handle_key(&mut self, key: NavKey) -> (consumed: bool)
        requires
            old(self).selected + 10 <= usize::MAX,
            old(self).offset + old(self).visible_rows <= usize::MAX,
        ensures
            consumed == (key != NavKey::Other),
            final(self).len == old(self).len,
            final(self).visible_rows == old(self).visible_rows,
            match nav_target(old(self).selected as nat, old(self).len as nat, key) {
                Some(t) => {
                    &&& final(self).selected as nat == t
                    &&& final(self).offset as nat == App::spec_scroll_into_view(
                        t,
                        old(self).offset as nat,
                        old(self).visible_rows as nat,
                    )
                },
                None => final(self).selected == old(self).selected && final(self).offset
                    == old(self).offset,
            },
    {
        match key {
            NavKey::Up => {
                if self.selected > 0 {
                    self.selected = self.selected - 1;
                }
            },
            NavKey::Down => {
                if self.selected + 1 < self.len {
                    self.selected = self.selected + 1;
                }
            },
            NavKey::Home => {
                self.selected = 0;
            },
            NavKey::End => {
                if self.len > 0 {
                    self.selected = self.len - 1;
                }
            },
            NavKey::PageUp => {
                self.selected = self.selected.saturating_sub(10);
            },
            NavKey::PageDown => {
                let last = self.len.saturating_sub(1);
                let next = self.selected + 10;
                self.selected = if next < last {
                    next
                } else {
                    last
                };
            },
            NavKey::Other => {
                return false;
            },
        }
        App::scroll_into_view(self.selected, &mut self.offset, self.visible_rows);
        true
    }
}

/// A navigation key keeps a selection inside a non-empty list and, when
/// rows are visible, on screen.
pub proof fn lemma_nav_stays_in_range(sel: nat, len: nat, offset: nat, rows: nat, key: NavKey)
    requires
        sel < len,
        key != NavKey::Other,
    ensures
        ({
            let t = nav_target(sel, len, key)->0;
            let o = App::spec_scroll_into_view(t, offset, rows);
            &&& t < len
            &&& rows > 0 ==> o <= t < o + rows
        }),
{
}

// ── Scroll deltas ─────────────────────────────────────────────────

/// `apply_delta`: `current + delta` kept within `0..len` (0 for an empty
/// list); the position and the length are taken as `i32`, as the program
/// does.
pub open spec fn spec_apply_delta(current: usize, delta: i32, len: usize) -> usize {
    if len == 0 {
        0
    } else {
        let moved: int = (current as i32) + delta;
        let hi: int = (len as i32) - 1;
        (if moved < 0 {
            0
        } else if moved > hi {
            hi
        } else {
            moved
        }) as usize
    }
}

/// The `i32` arithmetic of `apply_delta` does not overflow and its range is
/// not empty.
pub open spec fn apply_delta_ok(current: usize, delta: i32, len: usize) -> bool {
    len == 0 || (i32::MIN <= (current as i32) + delta <= i32::MAX && (len as i32) >= 1)
}

pub fn apply_delta(current: usize, delta: i32, len: usize) -> (r: usize)
    requires
        apply_delta_ok(current, delta, len),
    ensures
        r == spec_apply_delta(current, delta, len),
{
    if len == 0 {
        return 0;
    }
    let moved = current as i32 + delta;
    let hi = (len as i32) - 1;
    let c = if moved < 0 {
        0
    } else if moved > hi {
        hi
    } else {
        moved
    };
    c as usize
}

/// A scroll delta on a list of at most `i32::MAX` rows lands inside it.
pub proof fn lemma_apply_delta_in_range(current: usize, delta: i32, len: usize)
    requires
        apply_delta_ok(current, delta, len),
        len > 0,
    ensures
        spec_apply_delta(current, delta, len) < len,
{
    assert((len as i32) as int <= len) by (bit_vector)
        requires
            (len as i32) >= 1,
    ;
}

// ── Scrolling the current list ────────────────────────────────────

/// The selection moved by `delta` (see `apply_delta`) and scrolled into a
/// view of `rows` rows.
pub open spec fn moved(sel: usize, off: usize, delta: i32, len: nat, rows: usize) -> (usize, usize) {
    let s = spec_apply_delta(sel, delta, len as usize);
    (s, App::spec_scroll_into_view(s as nat, off as nat, rows as nat) as usize)
}

/// What `scroll_selection` needs of the numbers it moves.
pub open spec fn moved_ok(sel: usize, off: usize, delta: i32, len: nat, rows: usize) -> bool {
    &&& len <= usize::MAX
    &&& apply_delta_ok(sel, delta, len as usize)
    &&& off + rows <= usize::MAX
}

impl App {
    /// Whether the screen shows a plain list (every screen but the
    /// transaction builder and the explorer).
    pub open spec fn shows_plain_list(&self) -> bool {
        self.screen != Screen::TxBuilder && self.screen != Screen::Explorer
    }

    /// The selection, scroll offset and length of the list the screen shows.
    pub open spec fn list_state(&self) -> (usize, usize, nat) {
        match self.screen {
            Screen::Coins => (self.coins_selected, self.coins_offset, self.coins@.len()),
            Screen::Objects => (self.objects_selected, self.objects_offset, self.objects@.len()),
            Screen::Transactions => (
                self.transactions_selected,
                self.transactions_offset,
                self.transactions@.len(),
            ),
            Screen::Staking => (self.stakes_selected, self.stakes_offset, self.stakes@.len()),
            Screen::AddressBook => (
                self.address_selected,
                self.address_offset,
                self.keys@.len() + self.address_book@.len(),
            ),
            Screen::Keys => (self.keys_selected, self.keys_offset, self.keys@.len()),
            _ => (self.packages_selected, self.packages_offset, self.spec_package_indices().len()),
        }
    }

    /// The state with the selection and offset of the shown list replaced.
    pub open spec fn with_list_state(&self, sel: usize, off: usize) -> App {
        let sc = self.screen;
        App {
            coins_selected: if sc == Screen::Coins {
                sel
            } else {
                self.coins_selected
            },
            coins_offset: if sc == Screen::Coins {
                off
            } else {
                self.coins_offset
            },
            objects_selected: if sc == Screen::Objects {
                sel
            } else {
                self.objects_selected
            },
            objects_offset: if sc == Screen::Objects {
                off
            } else {
                self.objects_offset
            },
            transactions_selected: if sc == Screen::Transactions {
                sel
            } else {
                self.transactions_selected
            },
            transactions_offset: if sc == Screen::Transactions {
                off
            } else {
                self.transactions_offset
            },
            stakes_selected: if sc == Screen::Staking {
                sel
            } else {
                self.stakes_selected
            },
            stakes_offset: if sc == Screen::Staking {
                off
            } else {
                self.stakes_offset
            },
            address_selected: if sc == Screen::AddressBook {
                sel
            } else {
                self.address_selected
            },
            address_offset: if sc == Screen::AddressBook {
                off
            } else {
                self.address_offset
            },
            keys_selected: if sc == Screen::Keys {
                sel
            } else {
                self.keys_selected
            },
            keys_offset: if sc == Screen::Keys {
                off
            } else {
                self.keys_offset
            },
            packages_selected: if sc == Screen::Packages {
                sel
            } else {
                self.packages_selected
            },
            packages_offset: if sc == Screen::Packages {
                off
            } else {
                self.packages_offset
            },
            ..*self
        }
    }

    pub open spec fn scroll_ok(&self, delta: i32) -> bool {
        match self.screen {
            Screen::TxBuilder => match self.tx.step {
                TxBuilderStep::SelectSender => apply_delta_ok(self.tx.sender, delta, self.keys@.len() as usize),
                TxBuilderStep::EditCommands => apply_delta_ok(
                    self.tx.cmd_selected,
                    delta,
                    self.tx.commands@.len() as usize,
                ),
                _ => true,
            },
            Screen::Explorer => if self.explorer.search_results@.len() > 0 {
                moved_ok(
                    self.explorer.search_selected,
                    self.explorer.search_offset,
                    delta,
                    self.explorer.search_results@.len(),
                    self.explorer.visible_rows,
                )
            } else {
                match self.explorer.lookup_result {
                    Some(r) => lines_of(r.spec_sections()) <= usize::MAX && apply_delta_ok(
                        self.explorer.lookup_offset,
                        delta,
                        lines_of(r.spec_sections()) as usize,
                    ),
                    None => true,
                }
            },
            _ => {
                let (sel, off, len) = self.list_state();
                moved_ok(sel, off, delta, len, self.content_visible_rows)
            },
        }
    }

    /// The current screen's selection moved by a scroll delta and kept on
    /// screen (for the explorer: the search selection, else the scroll
    /// position of the lookup result; for the transaction builder: the
    /// sender or the command under the cursor).
    #[verifier::opaque]
    pub open spec fn scrolled(&self, o: &App, delta: i32) -> bool {
        match o.screen {
            Screen::TxBuilder => match o.tx.step {
                TxBuilderStep::SelectSender => {
                    let s = spec_apply_delta(o.tx.sender, delta, o.keys@.len() as usize);
                    *self == (App {
                        tx: TxBuilderState {
                            sender: s,
                            dry_run_dirty: o.tx.dry_run_dirty || s != o.tx.sender,
                            ..o.tx
                        },
                        ..*o
                    })
                },
                TxBuilderStep::EditCommands => *self == (App {
                    tx: TxBuilderState {
                        cmd_selected: spec_apply_delta(
                            o.tx.cmd_selected,
                            delta,
                            o.tx.commands@.len() as usize,
                        ),
                        ..o.tx
                    },
                    ..*o
                }),
                _ => *self == *o,
            },
            Screen::Explorer => if o.explorer.search_results@.len() > 0 {
                let m = moved(
                    o.explorer.search_selected,
                    o.explorer.search_offset,
                    delta,
                    o.explorer.search_results@.len(),
                    o.explorer.visible_rows,
                );
                *self == (App {
                    explorer: ExplorerState { search_selected: m.0, search_offset: m.1, ..o.explorer },
                    ..*o
                })
            } else {
                match o.explorer.lookup_result {
                    Some(r) => *self == (App {
                        explorer: ExplorerState {
                            lookup_offset: spec_apply_delta(
                                o.explorer.lookup_offset,
                                delta,
                                lines_of(r.spec_sections()) as usize,
                            ),
                            ..o.explorer
                        },
                        ..*o
                    }),
                    None => *self == *o,
                }
            },
            _ => {
                let (sel, off, len) = o.list_state();
                let m = moved(sel, off, delta, len, o.content_visible_rows);
                *self == o.with_list_state(m.0, m.1)
            },
        }
    }

    fn get_list_state(&self) -> (r: (usize, usize, usize))
        requires
            self.shows_plain_list(),
            self.list_state().2 <= usize::MAX,
        ensures
            (r.0, r.1, r.2 as nat) == self.list_state(),
    {
        match self.screen {
            Screen::Coins => (self.coins_selected, self.coins_offset, self.coins.len()),
            Screen::Objects => (self.objects_selected, self.objects_offset, self.objects.len()),
            Screen::Transactions => (
                self.transactions_selected,
                self.transactions_offset,
                self.transactions.len(),
            ),
            Screen::Staking => (self.stakes_selected, self.stakes_offset, self.stakes.len()),
            Screen::AddressBook => {
                let n = self.keys.len();
                let m = self.address_book.len();
                (self.address_selected, self.address_offset, n + m)
            },
            Screen::Keys => (self.keys_selected, self.keys_offset, self.keys.len()),
            _ => (self.packages_selected, self.packages_offset, self.package_indices().len()),
        }
    }

    #[verifier::rlimit(100)]
    fn set_list_state(&mut self, sel: usize, off: usize)
        requires
            old(self).shows_plain_list(),
        ensures
            *final(self) == old(self).with_list_state(sel, off),
    {
        match self.screen {
            Screen::Coins => {
                self.coins_selected = sel;
                self.coins_offset = off;
                return;
            },
            Screen::Objects => {
                self.objects_selected = sel;
                self.objects_offset = off;
                return;
            },
            Screen::Transactions => {
                self.transactions_selected = sel;
                self.transactions_offset = off;
                return;
            },
            Screen::Staking => {
                self.stakes_selected = sel;
                self.stakes_offset = off;
                return;
            },
            Screen::AddressBook => {
                self.address_selected = sel;
                self.address_offset = off;
                return;
            },
            Screen::Keys => {
                self.keys_selected = sel;
                self.keys_offset = off;
                return;
            },
            _ => {
                self.packages_selected = sel;
                self.packages_offset = off;
                return;
            },
        }
    }
}

/// Move `sel` by `delta` within `len` rows and scroll it into view.
fn move_in_view(sel: usize, off: usize, delta: i32, len: usize, rows: usize) -> (r: (usize, usize))
    requires
        moved_ok(sel, off, delta, len as nat, rows),
    ensures
        r == moved(sel, off, delta, len as nat, rows),
{
    let s = apply_delta(sel, delta, len);
    let mut o = off;
    App::scroll_into_view(s, &mut o, rows);
    (s, o)
}

/// Scroll the current screen's list by `delta` rows (mouse wheel).
pub fn scroll_selection(app: &mut App, delta: i32)
    requires
        old(app).scroll_ok(delta),
    ensures
        final(app).scrolled(old(app), delta),
{
    match app.screen {
        Screen::TxBuilder => scroll_tx_builder(app, delta),
        Screen::Explorer => scroll_explorer(app, delta),
        _ => scroll_list(app, delta),
    }
}

fn scroll_list(app: &mut App, delta: i32)
    requires
        old(app).scroll_ok(delta),
        old(app).shows_plain_list(),
    ensures
        final(app).scrolled(old(app), delta),
{
    let (sel, off, len) = app.get_list_state();
    let rows = app.content_visible_rows;
    let m = move_in_view(sel, off, delta, len, rows);
    app.set_list_state(m.0, m.1);
    proof {
        reveal(App::scrolled);
    }
}

fn scroll_tx_builder(app: &mut App, delta: i32)
    requires
        old(app).scroll_ok(delta),
        old(app).screen == Screen::TxBuilder,
    ensures
        final(app).scrolled(old(app), delta),
{
    proof {
        reveal(App::scrolled);
    }
    match app.tx.step {
        TxBuilderStep::SelectSender => {
            let before = app.tx.sender;
            app.tx.sender = apply_delta(app.tx.sender, delta, app.keys.len());
            if app.tx.sender != before {
                app.tx.dry_run_dirty = true;
            }
        },
        TxBuilderStep::EditCommands => {
            app.tx.cmd_selected = apply_delta(app.tx.cmd_selected, delta, app.tx.commands.len());
        },
        _ => {},
    }
}

fn scroll_explorer(app: &mut App, delta: i32)
    requires
        old(app).scroll_ok(delta),
        old(app).screen == Screen::Explorer,
    ensures
        final(app).scrolled(old(app), delta),
{
    proof {
        reveal(App::scrolled);
    }
    if app.explorer.search_results.len() > 0 {
        let len = app.explorer.search_results.len();
        let vis = app.explorer.visible_rows;
        let m = move_in_view(app.explorer.search_selected, app.explorer.search_offset, delta, len, vis);
        app.explorer.search_selected = m.0;
        app.explorer.search_offset = m.1;
    } else {
        match &app.explorer.lookup_result {
            Some(result) => {
                let total_lines = result.total_visible_lines();
                app.explorer.lookup_offset = apply_delta(app.explorer.lookup_offset, delta, total_lines);
            },
            None => {},
        }
    }
}

} // verus!
