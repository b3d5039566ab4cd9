//! Keys on the box grid: moving the focus between the section boxes drawn
//! on the last frame, opening a box, its context menu, or the search bar.

use vstd::prelude::*;
use crate::hints::HintRequest;
use crate::keys::Key;
use crate::seqs::{first_index, lemma_first_index_found};
use crate::state::App;
use crate::text::{push_char, trim, trim_str};
use crate::types::{ContextMenu, InputMode, Popup, Section, spec_actions_for, actions_for};
use crate::wallet::WalletCmd;

verus! {

/// A rectangle of the terminal, in cells.
#[derive(Debug, Clone, Copy, PartialEq, Eq, Structural)]
pub struct Area {
    pub x: u16,
    pub y: u16,
    pub width: u16,
    pub height: u16,
}

/// Where a section's box was drawn on the last frame.
#[derive(Debug, Clone, Copy, PartialEq, Eq, Structural)]
pub struct GridBox {
    pub section: Section,
    pub area: Area,
}

/// The layout of the last frame, as far as keys and clicks depend on it:
/// the grid boxes in drawing order, the whole frame, the content area, the
/// open popup's box, the context menu's box, the network tag, the search
/// bar, and the hints of the hint bar with their action ids.
pub struct Layout {
    pub grid_boxes: Vec<GridBox>,
    pub frame: Area,
    pub content: Area,
    pub popup: Area,
    pub context_menu: Area,
    pub net_tag: Area,
    pub search_bar: Area,
    pub hints: Vec<(Area, &'static str)>,
}

/// The column of an area's centre.
pub open spec fn center_x(a: Area) -> int {
    a.x + a.width / 2
}

/// The row of an area's centre.
pub open spec fn center_y(a: Area) -> int {
    a.y + a.height / 2
}

/// Centres that fit in a `u16`.
pub open spec fn centers_fit(a: Area) -> bool {
    center_x(a) <= u16::MAX && center_y(a) <= u16::MAX
}

/// The first box drawn for `s`.
pub open spec fn box_of(boxes: Seq<GridBox>, s: Section) -> Option<nat> {
    first_index(boxes.len(), |j: int| boxes[j].section == s)
}

/// A box of another section whose centre lies below (`dy > 0`) or above
/// the centre of `cur`.
pub open spec fn is_candidate(b: GridBox, focused: Section, cur: Area, dy: i32) -> bool {
    &&& b.section != focused
    &&& if dy > 0 {
        center_y(b.area) > center_y(cur)
    } else {
        center_y(b.area) < center_y(cur)
    }
}

/// Distance from `cur` to a box: rows count a hundred times columns.
pub open spec fn focus_score(b: Area, cur: Area) -> int {
    let dv = center_y(b) - center_y(cur);
    let dh = center_x(b) - center_x(cur);
    (if dv < 0 {
        -dv
    } else {
        dv
    }) * 100 + (if dh < 0 {
        -dh
    } else {
        dh
    })
}

/// Among the first `n` boxes, the first candidate with the lowest score.
pub open spec fn best_upto(boxes: Seq<GridBox>, focused: Section, cur: Area, dy: i32, n: nat) -> Option<
    nat,
>
    decreases n,
{
    if n == 0 {
        None
    } else {
        let prev = best_upto(boxes, focused, cur, dy, (n - 1) as nat);
        let b = boxes[n - 1];
        if is_candidate(b, focused, cur, dy) && (prev is None || focus_score(b.area, cur)
            < focus_score(boxes[prev->0 as int].area, cur)) {
            Some((n - 1) as nat)
        } else {
            prev
        }
    }
}

/// The section focused after an arrow: sideways moves go round the boxes
/// in drawing order; up and down go to the nearest box in that direction.
/// Nothing changes when the focused section has no box.
pub open spec fn spec_move_focus(boxes: Seq<GridBox>, focused: Section, dx: i32, dy: i32) -> Section {
    match box_of(boxes, focused) {
        None => focused,
        Some(i) => if dx != 0 {
            let j: int = if dx > 0 {
                if i + 1 < boxes.len() {
                    i + 1int
                } else {
                    0int
                }
            } else if i > 0 {
                i - 1int
            } else {
                boxes.len() - 1int
            };
            boxes[j].section
        } else if dy != 0 {
            match best_upto(boxes, focused, boxes[i as int].area, dy, boxes.len()) {
                Some(k) => boxes[k as int].section,
                None => focused,
            }
        } else {
            focused
        },
    }
}

pub(crate) fn find_box(boxes: &Vec<GridBox>, s: Section) -> (r: Option<usize>)
    ensures
        match r {
            Some(i) => box_of(boxes@, s) == Some(i as nat) && i < boxes@.len(),
            None => box_of(boxes@, s) is None,
        },
{
    let ghost p = |j: int| boxes@[j].section == s;
    for i in 0..boxes.len()
        invariant
            first_index(i as nat, p) is None,
            p == (|j: int| boxes@[j].section == s),
    {
        if boxes[i].section == s {
            proof {
                lemma_first_index_found(boxes@.len(), p, i as nat);
            }
            return Some(i);
        }
    }
    None
}

fn abs_diff(a: i32, b: i32) -> (r: i32)
    requires
        -100_000 <= a <= 100_000,
        -100_000 <= b <= 100_000,
    ensures
        r == if a - b < 0 {
            b - a
        } else {
            a - b
        },
{
    if a - b < 0 {
        b - a
    } else {
        a - b
    }
}

/// Move the focus between the grid boxes (see `spec_move_focus`).
pub fn move_focus(boxes: &Vec<GridBox>, focused: Section, dx: i32, dy: i32) -> (r: Section)
    requires
        forall|j: int| 0 <= j < boxes@.len() ==> centers_fit(#[trigger] boxes@[j].area),
    ensures
        r == spec_move_focus(boxes@, focused, dx, dy),
{
    let i = match find_box(boxes, focused) {
        Some(i) => i,
        None => {
            return focused;
        },
    };
    let n = boxes.len();
    if dx != 0 {
        let j = if dx > 0 {
            if i + 1 < n {
                i + 1
            } else {
                0
            }
        } else if i > 0 {
            i - 1
        } else {
            n - 1
        };
        return boxes[j].section;
    }
    if dy == 0 {
        return focused;
    }
    let cur = boxes[i].area;
    assert(centers_fit(boxes@[i as int].area));
    let cur_cx: i32 = (cur.x + cur.width / 2) as i32;
    let cur_cy: i32 = (cur.y + cur.height / 2) as i32;
    let mut best: Option<(usize, i32)> = None;
    for k in 0..n
        invariant
            n == boxes@.len(),
            cur == boxes@[i as int].area,
            cur_cx == center_x(cur),
            cur_cy == center_y(cur),
            match best {
                Some((b, sc)) => best_upto(boxes@, focused, cur, dy, k as nat) == Some(b as nat)
                    && sc == focus_score(boxes@[b as int].area, cur) && b < k,
                None => best_upto(boxes@, focused, cur, dy, k as nat) is None,
            },
    {
        let b = boxes[k];
        let cy: i32 = b.area.y as i32 + b.area.height as i32 / 2;
        let cx: i32 = b.area.x as i32 + b.area.width as i32 / 2;
        let right_way = if dy > 0 {
            cy > cur_cy
        } else {
            cy < cur_cy
        };
        if b.section != focused && right_way {
            let score = abs_diff(cy, cur_cy) * 100 + abs_diff(cx, cur_cx);
            let better = match best {
                Some((_, s)) => score < s,
                None => true,
            };
            if better {
                best = Some((k, score));
            }
        }
    }
    match best {
        Some((b, _)) => boxes[b].section,
        None => focused,
    }
}

impl App {
    /// How many rows the box of `s` lists.
    pub open spec fn section_items(&self, s: Section) -> nat {
        match s {
            Section::Coins => self.coins@.len(),
            Section::Objects => self.objects@.len(),
            Section::Staking => self.stakes@.len(),
            Section::Transactions => self.transactions@.len(),
            Section::Packages => self.spec_package_indices().len(),
        }
    }

    /// The selection and scroll offset of the list of `s`.
    pub open spec fn section_selection(&self, s: Section) -> (usize, usize) {
        match s {
            Section::Coins => (self.coins_selected, self.coins_offset),
            Section::Objects => (self.objects_selected, self.objects_offset),
            Section::Staking => (self.stakes_selected, self.stakes_offset),
            Section::Transactions => (self.transactions_selected, self.transactions_offset),
            Section::Packages => (self.packages_selected, self.packages_offset),
        }
    }

    /// Where the context menu of the focused box opens: beside the selected
    /// row of the box (row and column of the cell), or mid-frame when the
    /// box was not drawn.
    pub open spec fn menu_anchor(&self, layout: &Layout) -> (u16, u16) {
        let s = self.focused_section;
        match box_of(layout.grid_boxes@, s) {
            Some(i) => {
                let a = layout.grid_boxes@[i as int].area;
                let (sel, off) = self.section_selection(s);
                let rib = (if sel > off {
                    sel - off
                } else {
                    0
                }) as u16;
                ((a.y + rib + 1) as u16, (a.x + a.width / 2) as u16)
            },
            None => ((layout.frame.height / 2) as u16, (layout.frame.width / 2) as u16),
        }
    }

    /// `/` on the grid: the context menu of the focused box opens at
    /// `menu_anchor`, when the box lists something and has actions.
    pub open spec fn grid_menu_opened(&self, o: &App, layout: &Layout) -> bool {
        let s = o.focused_section;
        let acts = spec_actions_for(s, o.exploring is None);
        if o.section_items(s) == 0 || acts.len() == 0 {
            *self == *o
        } else {
            &&& self.context_menu matches Some(m) && m.section == s && m.actions@ == acts
                && m.selected == 0 && (m.anchor_row, m.anchor_col) == o.menu_anchor(layout)
            &&& *self == (App { context_menu: self.context_menu, ..*o })
        }
    }

    /// What the menu anchor needs: a row below the last cell.
    pub open spec fn anchor_ok(&self, layout: &Layout) -> bool {
        match box_of(layout.grid_boxes@, self.focused_section) {
            Some(i) => {
                let a = layout.grid_boxes@[i as int].area;
                let (sel, off) = self.section_selection(self.focused_section);
                let rib = (if sel > off {
                    sel - off
                } else {
                    0
                }) as u16;
                a.y + rib + 1 <= u16::MAX && a.x + a.width / 2 <= u16::MAX
            },
            None => true,
        }
    }
}

pub(crate) fn section_item_count(app: &App, s: Section) -> (n: usize)
    ensures
        n == app.section_items(s),
{
    match s {
        Section::Coins => app.coins.len(),
        Section::Objects => app.objects.len(),
        Section::Staking => app.stakes.len(),
        Section::Transactions => app.transactions.len(),
        Section::Packages => app.package_indices().len(),
    }
}

pub(crate) fn section_selection(app: &App, s: Section) -> (r: (usize, usize))
    ensures
        r == app.section_selection(s),
{
    match s {
        Section::Coins => (app.coins_selected, app.coins_offset),
        Section::Objects => (app.objects_selected, app.objects_offset),
        Section::Staking => (app.stakes_selected, app.stakes_offset),
        Section::Transactions => (app.transactions_selected, app.transactions_offset),
        Section::Packages => (app.packages_selected, app.packages_offset),
    }
}

fn open_context_menu(app: &mut App, layout: &Layout)
    requires
        old(app).anchor_ok(layout),
    ensures
        final(app).grid_menu_opened(old(app), layout),
{
    let s = app.focused_section;
    if section_item_count(app, s) == 0 {
        return ;
    }
    let actions = actions_for(s, app.exploring.is_none());
    if actions.len() == 0 {
        return ;
    }
    let (anchor_row, anchor_col) = match find_box(&layout.grid_boxes, s) {
        Some(i) => {
            let a = layout.grid_boxes[i].area;
            let (sel, off) = section_selection(app, s);
            let rib = (if sel > off {
                sel - off
            } else {
                0
            }) as u16;
            (a.y + rib + 1, a.x + a.width / 2)
        },
        None => (layout.frame.height / 2, layout.frame.width / 2),
    };
    app.context_menu = Some(ContextMenu { section: s, actions, selected: 0, anchor_row, anchor_col });
}

impl App {
    /// A key in the search bar: Esc leaves it (and the explorer overlay,
    /// when nothing is typed); Enter explores the trimmed text; characters
    /// are typed and Backspace deletes.
    #[verifier::opaque]
    pub open spec fn search_key_handled(&self, o: &App, key: Key) -> bool {
        let b = o.search_buffer@;
        if key == Key::Esc {
            let m = App { search_focused: false, input_mode: InputMode::Normal, ..*o };
            if b.len() == 0 && o.exploring is Some {
                self.refreshed(&App { exploring: None, ..m })
            } else {
                *self == m
            }
        } else if key == Key::Enter {
            let q = trim(b);
            if q.len() > 0 {
                &&& self.exploring matches Some(e) && e@ == q && self.outbox@ == o.outbox@.push(
                    WalletCmd::LookupAddress(e),
                )
                &&& *self == (App {
                    exploring: self.exploring,
                    search_focused: false,
                    input_mode: InputMode::Normal,
                    outbox: self.outbox,
                    ..*o
                })
            } else {
                *self == *o
            }
        } else {
            &&& self.search_buffer@ == match key {
                Key::Char(c) => b.push(c),
                Key::Backspace => if b.len() > 0 {
                    b.drop_last()
                } else {
                    b
                },
                _ => b,
            }
            &&& *self == (App { search_buffer: self.search_buffer, ..*o })
        }
    }
}

fn handle_search_key(app: &mut App, key: Key)
    ensures
        final(app).search_key_handled(old(app), key),
{
    proof {
        reveal(App::search_key_handled);
    }
    match key {
        Key::Esc => {
            app.search_focused = false;
            app.input_mode = InputMode::Normal;
            if app.search_buffer.as_str().is_empty() && app.exploring.is_some() {
                app.exploring = None;
                app.request_refresh();
            }
        },
        Key::Enter => {
            let query = trim_str(app.search_buffer.as_str());
            if !query.as_str().is_empty() {
                app.exploring = Some(query.clone());
                app.search_focused = false;
                app.input_mode = InputMode::Normal;
                app.send_cmd(WalletCmd::LookupAddress(query));
            }
        },
        Key::Char(c) => {
            push_char(&mut app.search_buffer, c);
        },
        Key::Backspace => {
            let mut v = crate::text::chars_of(app.search_buffer.as_str());
            let _ = v.pop();
            app.search_buffer = crate::text::string_of(&v);
        },
        _ => {},
    }
}

impl App {
    /// What a key does on the grid: in the search bar see
    /// `search_key_handled`; else arrows move the focus, Enter opens the
    /// focused box (when it lists something), `/` its context menu, `,` the
    /// settings, Ctrl+T the builder, Ctrl+L the search bar, `c` copies the
    /// selection (left to the caller, `r`), and Esc leaves the explorer
    /// overlay.
    #[verifier::opaque]
    pub open spec fn grid_key_handled(
        &self,
        o: &App,
        key: Key,
        ctrl: bool,
        layout: &Layout,
        r: HintRequest,
    ) -> bool {
        let boxes = layout.grid_boxes@;
        let f = o.focused_section;
        if o.search_focused {
            r == HintRequest::Done && self.search_key_handled(o, key)
        } else if key == Key::Char('c') {
            r == HintRequest::Copy && *self == *o
        } else {
            &&& r == HintRequest::Done
            &&& match key {
                Key::Left => *self == (App { focused_section: spec_move_focus(boxes, f, -1i32, 0i32), ..*o }),
                Key::Right => *self == (App { focused_section: spec_move_focus(boxes, f, 1i32, 0i32), ..*o }),
                Key::Up => *self == (App { focused_section: spec_move_focus(boxes, f, 0i32, -1i32), ..*o }),
                Key::Down => *self == (App { focused_section: spec_move_focus(boxes, f, 0i32, 1i32), ..*o }),
                Key::Enter => if o.section_items(f) > 0 {
                    *self == (App { section_open: Some(f), ..*o })
                } else {
                    *self == *o
                },
                Key::Char(c) => if c == '/' {
                    self.grid_menu_opened(o, layout)
                } else if c == ',' {
                    self.popup_opened(o, Popup::Settings)
                } else if c == 't' && ctrl {
                    *self == (App { tx_builder_open: true, ..*o })
                } else if c == 'l' && ctrl {
                    *self == (App { search_focused: true, input_mode: InputMode::Editing, ..*o })
                } else {
                    *self == *o
                },
                Key::Esc => if o.exploring is Some {
                    self.refreshed(&App { exploring: None, ..*o })
                } else {
                    *self == *o
                },
                _ => *self == *o,
            }
        }
    }

    /// What the grid needs: box centres that fit in a cell coordinate and
    /// a context-menu anchor that does.
    pub open spec fn grid_key_ok(&self, layout: &Layout) -> bool {
        &&& forall|j: int|
            0 <= j < layout.grid_boxes@.len() ==> centers_fit(#[trigger] layout.grid_boxes@[j].area)
        &&& self.anchor_ok(layout)
    }
}

/// Keys on the box grid; a copy of the selection is left to the caller.
pub fn handle_grid_key(app: &mut App, key: Key, ctrl: bool, layout: &Layout) -> (r: HintRequest)
    requires
        old(app).grid_key_ok(layout),
    ensures
        final(app).grid_key_handled(old(app), key, ctrl, layout, r),
{
    proof {
        reveal(App::grid_key_handled);
    }
    if app.search_focused {
        handle_search_key(app, key);
        return HintRequest::Done;
    }
    if key == Key::Char('c') {
        return HintRequest::Copy;
    }
    match key {
        Key::Left => {
            app.focused_section = move_focus(&layout.grid_boxes, app.focused_section, -1, 0);
        },
        Key::Right => {
            app.focused_section = move_focus(&layout.grid_boxes, app.focused_section, 1, 0);
        },
        Key::Up => {
            app.focused_section = move_focus(&layout.grid_boxes, app.focused_section, 0, -1);
        },
        Key::Down => {
            app.focused_section = move_focus(&layout.grid_boxes, app.focused_section, 0, 1);
        },
        Key::Enter => {
            let f = app.focused_section;
            if section_item_count(app, f) > 0 {
                app.section_open = Some(f);
            }
        },
        Key::Char(c) => {
            if c == '/' {
                open_context_menu(app, layout);
            } else if c == ',' {
                app.open_popup(Popup::Settings);
            } else if c == 't' && ctrl {
                app.tx_builder_open = true;
            } else if c == 'l' && ctrl {
                app.search_focused = true;
                app.input_mode = InputMode::Editing;
            }
        },
        Key::Esc => {
            if app.exploring.is_some() {
                app.exploring = None;
                app.request_refresh();
            }
        },
        _ => {},
    }
    HintRequest::Done
}

/// Sections drawn once each.
pub open spec fn distinct_sections(boxes: Seq<GridBox>) -> bool {
    forall|i: int, j: int|
        0 <= i < boxes.len() && 0 <= j < boxes.len() && i != j ==> boxes[i].section
            != boxes[j].section
}

proof fn lemma_box_of_index(boxes: Seq<GridBox>, j: int)
    requires
        distinct_sections(boxes),
        0 <= j < boxes.len(),
    ensures
        box_of(boxes, boxes[j].section) == Some(j as nat),
{
    let s = boxes[j].section;
    let p = |k: int| boxes[k].section == s;
    lemma_first_index_none(j as nat, p);
    lemma_first_index_found(boxes.len(), p, j as nat);
}

proof fn lemma_first_index_none(n: nat, p: spec_fn(int) -> bool)
    requires
        forall|k: int| 0 <= k < n ==> !#[trigger] p(k),
    ensures
        first_index(n, p) is None,
    decreases n,
{
    if n > 0 {
        lemma_first_index_none((n - 1) as nat, p);
    }
}

/// With each section drawn once, moving the focus right and then left
/// comes back to the focused box.
pub proof fn lemma_focus_right_then_left(boxes: Seq<GridBox>, f: Section)
    requires
        distinct_sections(boxes),
        box_of(boxes, f) is Some,
    ensures
        spec_move_focus(boxes, spec_move_focus(boxes, f, 1i32, 0i32), -1i32, 0i32) == f,
{
    let i = box_of(boxes, f)->0;
    crate::seqs::lemma_first_index_in_range(boxes.len(), |k: int| boxes[k].section == f);
    let j: int = if i + 1 < boxes.len() {
        i + 1int
    } else {
        0int
    };
    lemma_box_of_index(boxes, j);
}

/// Typing a character into the search bar and erasing it with Backspace
/// gives the bar back as it was.
pub proof fn lemma_search_type_then_erase(a: App, b: App, c: App, ch: char)
    requires
        a.search_focused,
        b.search_key_handled(&a, Key::Char(ch)),
        c.search_key_handled(&b, Key::Backspace),
    ensures
        c.search_buffer@ == a.search_buffer@,
        c == (App { search_buffer: c.search_buffer, ..a }),
{
    reveal(App::search_key_handled);
    assert(a.search_buffer@.push(ch).drop_last() =~= a.search_buffer@);
}

impl App {
    /// The sections the grid shows: those with something to list, in the
    /// order coins, objects, stakes, transactions, packages.
    pub open spec fn spec_visible_sections(&self) -> Seq<Section> {
        let a = if self.coins@.len() > 0 {
            seq![Section::Coins]
        } else {
            Seq::empty()
        };
        let b = if self.objects@.len() > 0 {
            a.push(Section::Objects)
        } else {
            a
        };
        let c = if self.stakes@.len() > 0 {
            b.push(Section::Staking)
        } else {
            b
        };
        let d = if self.transactions@.len() > 0 {
            c.push(Section::Transactions)
        } else {
            c
        };
        if self.spec_package_indices().len() > 0 {
            d.push(Section::Packages)
        } else {
            d
        }
    }

    /// The sections the grid shows (see `spec_visible_sections`).
    pub fn visible_sections(&self) -> (r: Vec<Section>)
        ensures
            r@ == self.spec_visible_sections(),
    {
        let mut r: Vec<Section> = Vec::new();
        if self.coins.len() > 0 {
            r.push(Section::Coins);
        }
        if self.objects.len() > 0 {
            r.push(Section::Objects);
        }
        if self.stakes.len() > 0 {
            r.push(Section::Staking);
        }
        if self.transactions.len() > 0 {
            r.push(Section::Transactions);
        }
        if self.package_indices().len() > 0 {
            r.push(Section::Packages);
        }
        proof {
            let a: Seq<Section> = if self.coins@.len() > 0 {
                seq![Section::Coins]
            } else {
                Seq::empty()
            };
            assert(a =~= if self.coins@.len() > 0 {
                Seq::<Section>::empty().push(Section::Coins)
            } else {
                Seq::<Section>::empty()
            });
        }
        r
    }
}

impl App {
    /// The context menu of `s` opened at the given cell, with the focus on
    /// `s`, when `s` has actions.
    pub open spec fn menu_opened_at(&self, o: &App, s: Section, row: u16, col: u16) -> bool {
        let acts = spec_actions_for(s, o.exploring is None);
        if acts.len() == 0 {
            *self == *o
        } else {
            &&& self.context_menu matches Some(m) && m.section == s && m.actions@ == acts
                && m.selected == 0 && m.anchor_row == row && m.anchor_col == col
            &&& *self == (App { focused_section: s, context_menu: self.context_menu, ..*o })
        }
    }
}

/// Open the context menu of `s` at the given cell.
pub fn open_context_menu_at(app: &mut App, s: Section, anchor_row: u16, anchor_col: u16)
    ensures
        final(app).menu_opened_at(old(app), s, anchor_row, anchor_col),
{
    let actions = actions_for(s, app.exploring.is_none());
    if actions.len() == 0 {
        return ;
    }
    let menu = ContextMenu { section: s, actions, selected: 0, anchor_row, anchor_col };
    let ghost o = *app;
    app.focused_section = s;
    app.context_menu = Some(menu);
    assert(*app == (App { focused_section: s, context_menu: Some(menu), ..o }));
}

} // verus!
