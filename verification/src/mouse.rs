//! Mouse clicks: a left click goes to the open popup, else the context
//! menu, the network tag, the search bar, the open section, and last the
//! box grid and the hint bar, hit-tested against the last frame's layout.

use vstd::prelude::*;
use crate::context_keys::execute_context_action;
use crate::dispatch::{KeyOutcome, KeyRequest, request_of, to_request};
use crate::grid_keys::{
    Area, GridBox, Layout, box_of, find_box, section_item_count, section_selection,
};
use crate::hints::{HintRequest, handle_hint_click};
use crate::keys::Key;
use crate::popup_keys::{clickable_hints, clickable_hints_of, handle_popup_key};
use crate::seqs::{first_index, lemma_first_index_found, lemma_first_index_some};
use crate::state::App;
use crate::types::{
    ContextMenu, InputMode, Popup, PopupFocus, Section, actions_for, spec_actions_for,
};

verus! {

/// The cell lies in the area.
pub open spec fn inside(a: Area, col: u16, row: u16) -> bool {
    a.x <= col < a.x + a.width && a.y <= row < a.y + a.height
}

/// The cell lies on the (one-row) area of a hint.
pub open spec fn on_hint(a: Area, col: u16, row: u16) -> bool {
    a.x <= col < a.x + a.width && row == a.y
}

/// The first grid box that holds the cell.
pub open spec fn hit_box(boxes: Seq<GridBox>, col: u16, row: u16) -> Option<nat> {
    first_index(boxes.len(), |j: int| inside(boxes[j].area, col, row))
}

/// The first hint of the hint bar under the cell.
pub open spec fn hit_hint(hs: Seq<(Area, &'static str)>, col: u16, row: u16) -> Option<nat> {
    first_index(hs.len(), |j: int| on_hint(hs[j].0, col, row))
}

/// The line inside a box's top border that a row falls on (0 on the
/// border and above it).
pub open spec fn inner_row(a: Area, row: u16) -> int {
    if row >= a.y + 1 {
        row - a.y - 1
    } else {
        0
    }
}

/// The key that picks option `k` (counted from 0) of a choice popup.
pub open spec fn option_key(k: int) -> Key {
    if k == 0 {
        Key::Char('1')
    } else if k == 1 {
        Key::Char('2')
    } else if k == 2 {
        Key::Char('3')
    } else if k == 3 {
        Key::Char('4')
    } else if k == 4 {
        Key::Char('5')
    } else if k == 5 {
        Key::Char('6')
    } else {
        Key::Char('7')
    }
}

/// The line of the yes/no buttons of a confirmation popup.
pub open spec fn button_line(p: Popup) -> int {
    if p == Popup::ConfirmDeleteAddress || p == Popup::ConfirmDeleteKey {
        5
    } else {
        3
    }
}

/// How many options a choice popup lists (0 for other popups).
pub open spec fn option_count(p: Popup) -> int {
    if p == Popup::GenerateKey || p == Popup::SwitchNetwork {
        3
    } else if p == Popup::AddCommand {
        7
    } else {
        0
    }
}

impl App {
    /// The state with row `i` selected in the list of `s`.
    pub open spec fn with_selected(&self, s: Section, i: usize) -> App {
        match s {
            Section::Coins => App { coins_selected: i, ..*self },
            Section::Objects => App { objects_selected: i, ..*self },
            Section::Staking => App { stakes_selected: i, ..*self },
            Section::Transactions => App { transactions_selected: i, ..*self },
            Section::Packages => App { packages_selected: i, ..*self },
        }
    }

    /// A click in an open popup. Outside its box the popup closes, input
    /// mode ends and the input line empties. Inside, a choice popup takes
    /// option line `3 + k` as the key of option `k`; a confirmation popup
    /// takes its button line as `y` left of the middle and `n` right of
    /// it; the actions menu runs the clickable hint on the line clicked,
    /// as a click on that hint would (`r` being what that leaves to do).
    /// Other lines, and other popups, take no click.
    #[verifier::opaque]
    pub open spec fn popup_click_handled(
        &self,
        o: &App,
        col: u16,
        row: u16,
        layout: &Layout,
        r: HintRequest,
    ) -> bool {
        match o.popup {
            None => r == HintRequest::Done && *self == *o,
            Some(p) => {
                let a = layout.popup;
                let k = inner_row(a, row);
                if !inside(a, col, row) {
                    &&& r == HintRequest::Done
                    &&& self.input_buffer@.len() == 0
                    &&& *self == (App {
                        popup: None,
                        input_mode: InputMode::Normal,
                        input_buffer: self.input_buffer,
                        input_cursor: 0,
                        ..*o
                    })
                } else if option_count(p) > 0 {
                    &&& r == HintRequest::Done
                    &&& if 3 <= k < 3 + option_count(p) {
                        self.popup_key_handled(o, option_key(k - 3), None)
                    } else {
                        *self == *o
                    }
                } else if p == Popup::ConfirmDeleteAddress || p == Popup::ConfirmDeleteKey || p
                    == Popup::ConfirmClearTx || p == Popup::ConfirmQuit {
                    &&& r == HintRequest::Done
                    &&& if k == button_line(p) {
                        self.popup_key_handled(
                            o,
                            if col < a.x + a.width / 2 {
                                Key::Char('y')
                            } else {
                                Key::Char('n')
                            },
                            None,
                        )
                    } else {
                        *self == *o
                    }
                } else if p == Popup::ActionsMenu {
                    let hs = clickable_hints(o.screen);
                    if k < hs.len() {
                        self.hint_clicked(&App { popup: None, ..*o }, hs[k].2, r)
                    } else {
                        r == HintRequest::Done && *self == *o
                    }
                } else {
                    r == HintRequest::Done && *self == *o
                }
            },
        }
    }

    /// A single click on row `row` of the box of `s`: the list row under it
    /// (below the top border, above the bottom one, counted from the
    /// scroll offset) is selected when the list has it.
    pub open spec fn box_row_clicked(&self, o: &App, s: Section, row: u16, layout: &Layout) -> bool {
        match box_of(layout.grid_boxes@, s) {
            None => *self == *o,
            Some(i) => {
                let a = layout.grid_boxes@[i as int].area;
                let bottom = a.y + if a.height >= 1 {
                    a.height - 1
                } else {
                    0
                };
                if row < a.y + 1 || row >= bottom {
                    *self == *o
                } else {
                    let idx = o.section_selection(s).1 + (row - a.y - 1);
                    if idx < o.section_items(s) {
                        *self == o.with_selected(s, idx as usize)
                    } else {
                        *self == *o
                    }
                }
            },
        }
    }

    /// A click on the grid box `j`: its section takes the focus; the
    /// expand icon (the last four cells of the title row) opens the section
    /// when it lists something; a double click opens its context menu at
    /// the cell; a single click selects the row under it.
    #[verifier::opaque]
    pub open spec fn grid_box_clicked(
        &self,
        o: &App,
        j: int,
        col: u16,
        row: u16,
        double_click: bool,
        layout: &Layout,
    ) -> bool {
        let s = layout.grid_boxes@[j].section;
        let f = App { focused_section: s, ..*o };
        let a = layout.grid_boxes@[box_of(layout.grid_boxes@, s)->0 as int].area;
        let icon = a.x + if a.width >= 4 {
            a.width - 4
        } else {
            0
        };
        if row == a.y && col >= icon {
            if o.section_items(s) > 0 {
                *self == (App { section_open: Some(s), ..f })
            } else {
                *self == f
            }
        } else if double_click {
            self.menu_opened_at(&f, s, row, col)
        } else {
            self.box_row_clicked(&f, s, row, layout)
        }
    }

    /// A double click in the open section `s`: its context menu (the
    /// actions for one's own items, or for another's while exploring)
    /// opens at the cell, when there are actions.
    #[verifier::opaque]
    pub open spec fn overlay_menu_opened(&self, o: &App, s: Section, row: u16, col: u16) -> bool {
        let acts = spec_actions_for(s, o.exploring is None);
        if acts.len() == 0 {
            *self == *o
        } else {
            &&& self.context_menu matches Some(m) && m.section == s && m.actions@ == acts
                && m.selected == 0 && m.anchor_row == row && m.anchor_col == col
            &&& *self == (App { context_menu: self.context_menu, ..*o })
        }
    }

    /// The state after a click away from the search bar: the bar loses the
    /// focus and input mode ends, if it had the focus.
    pub open spec fn search_unfocused(&self) -> App {
        if self.search_focused {
            App { search_focused: false, input_mode: InputMode::Normal, ..*self }
        } else {
            *self
        }
    }

    /// A click that no popup, context menu, tag or search bar took. In an
    /// open section a double click opens its context menu, a single one
    /// does nothing; the explorer and the builder take no click; on the
    /// grid a box takes it (see `grid_box_clicked`), else a hint of the
    /// hint bar runs as a click on it (`r` being what that leaves to do).
    #[verifier::opaque]
    pub open spec fn plain_click_handled(
        &self,
        o: &App,
        col: u16,
        row: u16,
        double_click: bool,
        layout: &Layout,
        r: KeyRequest,
    ) -> bool {
        match o.section_open {
            Some(s) => r == KeyRequest::Nothing && if double_click {
                self.overlay_menu_opened(o, s, row, col)
            } else {
                *self == *o
            },
            None => if o.exploring is Some || o.tx_builder_open {
                r == KeyRequest::Nothing && *self == *o
            } else {
                match hit_box(layout.grid_boxes@, col, row) {
                    Some(j) => r == KeyRequest::Nothing && self.grid_box_clicked(
                        o,
                        j as int,
                        col,
                        row,
                        double_click,
                        layout,
                    ),
                    None => match hit_hint(layout.hints@, col, row) {
                        Some(k) => exists|hr: HintRequest|
                            r == request_of(hr) && #[trigger] self.hint_clicked(
                                o,
                                layout.hints@[k as int].1@,
                                hr,
                            ),
                        None => r == KeyRequest::Nothing && *self == *o,
                    },
                }
            },
        }
    }

    /// A click while the context menu `m` is open: the menu closes; a
    /// click on one of its lines (below its top border) runs that line's
    /// action on the menu's section (`r` being what that leaves to do).
    #[verifier::opaque]
    pub open spec fn menu_click_handled(
        &self,
        o: &App,
        col: u16,
        row: u16,
        layout: &Layout,
        r: KeyRequest,
    ) -> bool {
        let m = o.context_menu->0;
        let cm = layout.context_menu;
        let mid = App { context_menu: None, ..*o };
        if inside(cm, col, row) && row >= cm.y + 1 && row - cm.y - 1 < m.actions@.len() {
            exists|hr: HintRequest|
                r == request_of(hr) && #[trigger] self.context_action_done(
                    &mid,
                    m.section,
                    m.actions@[row - cm.y - 1],
                    hr,
                )
        } else {
            r == KeyRequest::Nothing && *self == mid
        }
    }

    /// A left click at (`col`, `row`), `double_click` when it repeats the
    /// last one on the same cell. An open popup takes it (see
    /// `popup_click_handled`); else an open context menu runs the action on
    /// the line clicked (below its top border), or closes on any other
    /// cell; else the network tag opens the network popup; else the search
    /// bar takes the focus and input mode; else the search bar loses the
    /// focus and the rest of the screen takes the click (see
    /// `plain_click_handled`).
    #[verifier::opaque]
    pub open spec fn click_handled(
        &self,
        o: &App,
        col: u16,
        row: u16,
        double_click: bool,
        layout: &Layout,
        out: KeyOutcome,
    ) -> bool {
        &&& out.save_theme is None
        &&& if o.popup is Some {
            exists|hr: HintRequest|
                out.request == request_of(hr) && #[trigger] self.popup_click_handled(
                    o,
                    col,
                    row,
                    layout,
                    hr,
                )
        } else if o.context_menu is Some {
            self.menu_click_handled(o, col, row, layout, out.request)
        } else if inside(layout.net_tag, col, row) {
            &&& out.request == KeyRequest::Nothing
            &&& *self == (App {
                popup: Some(Popup::SwitchNetwork),
                popup_scroll: 0,
                popup_focus: PopupFocus::Fields,
                ..*o
            })
        } else if inside(layout.search_bar, col, row) {
            &&& out.request == KeyRequest::Nothing
            &&& *self == if o.search_focused {
                *o
            } else {
                App { search_focused: true, input_mode: InputMode::Editing, ..*o }
            }
        } else {
            self.plain_click_handled(
                &o.search_unfocused(),
                col,
                row,
                double_click,
                layout,
                out.request,
            )
        }
    }

    /// What a click needs: an open popup's key handling (see
    /// `popup_keys_ok`) and, for the actions menu, what hints need; with no
    /// popup and no context menu, what hints need (for the hint bar).
    pub open spec fn click_ok(&self) -> bool {
        if self.popup is Some {
            &&& self.popup_keys_ok()
            &&& self.popup == Some(Popup::ActionsMenu) ==> self.hints_ok()
        } else if self.context_menu is Some {
            true
        } else {
            self.hints_ok()
        }
    }
}

/// Whether the cell lies in the area.
pub fn area_contains(a: &Area, col: u16, row: u16) -> (b: bool)
    ensures
        b == inside(*a, col, row),
{
    let cx = col as u32;
    let cy = row as u32;
    (a.x as u32) <= cx && cx < (a.x as u32) + (a.width as u32) && (a.y as u32) <= cy && cy < (
    a.y as u32) + (a.height as u32)
}

fn find_hit_box(boxes: &Vec<GridBox>, col: u16, row: u16) -> (r: Option<usize>)
    ensures
        match r {
            Some(j) => hit_box(boxes@, col, row) == Some(j as nat) && j < boxes@.len(),
            None => hit_box(boxes@, col, row) is None,
        },
{
    let ghost p = |j: int| inside(boxes@[j].area, col, row);
    for i in 0..boxes.len()
        invariant
            first_index(i as nat, p) is None,
            p == (|j: int| inside(boxes@[j].area, col, row)),
    {
        if area_contains(&boxes[i].area, col, row) {
            proof {
                lemma_first_index_found(boxes@.len(), p, i as nat);
            }
            return Some(i);
        }
    }
    None
}

fn find_hint(hs: &Vec<(Area, &'static str)>, col: u16, row: u16) -> (r: Option<usize>)
    ensures
        match r {
            Some(k) => hit_hint(hs@, col, row) == Some(k as nat) && k < hs@.len(),
            None => hit_hint(hs@, col, row) is None,
        },
{
    let ghost p = |j: int| on_hint(hs@[j].0, col, row);
    for i in 0..hs.len()
        invariant
            first_index(i as nat, p) is None,
            p == (|j: int| on_hint(hs@[j].0, col, row)),
    {
        let a = hs[i].0;
        let cx = col as u32;
        if (a.x as u32) <= cx && cx < (a.x as u32) + (a.width as u32) && row == a.y {
            proof {
                lemma_first_index_found(hs@.len(), p, i as nat);
            }
            return Some(i);
        }
    }
    None
}

fn select_in(app: &mut App, s: Section, i: usize)
    ensures
        *final(app) == old(app).with_selected(s, i),
{
    match s {
        Section::Coins => app.coins_selected = i,
        Section::Objects => app.objects_selected = i,
        Section::Staking => app.stakes_selected = i,
        Section::Transactions => app.transactions_selected = i,
        Section::Packages => app.packages_selected = i,
    }
}

fn click_box_row(app: &mut App, s: Section, row: u16, layout: &Layout)
    ensures
        final(app).box_row_clicked(old(app), s, row, layout),
{
    let i = match find_box(&layout.grid_boxes, s) {
        Some(i) => i,
        None => {
            return ;
        },
    };
    let a = layout.grid_boxes[i].area;
    let bottom: u32 = (a.y as u32) + if a.height >= 1 {
        (a.height - 1) as u32
    } else {
        0
    };
    if (row as u32) < (a.y as u32) + 1 || (row as u32) >= bottom {
        return ;
    }
    let clicked: usize = (row - a.y - 1) as usize;
    let n = section_item_count(app, s);
    let (_, off) = section_selection(app, s);
    if clicked < n && off < n - clicked {
        select_in(app, s, off + clicked);
    }
}

fn click_grid_box(app: &mut App, j: usize, col: u16, row: u16, double_click: bool, layout: &Layout)
    requires
        j < layout.grid_boxes@.len(),
    ensures
        final(app).grid_box_clicked(old(app), j as int, col, row, double_click, layout),
{
    proof {
        reveal(App::grid_box_clicked);
    }
    let s = layout.grid_boxes[j].section;
    app.focused_section = s;
    let ghost f = *app;
    let i = match find_box(&layout.grid_boxes, s) {
        Some(i) => i,
        None => {
            proof {
                lemma_first_index_some(
                    layout.grid_boxes@.len(),
                    |k: int| layout.grid_boxes@[k].section == s,
                    j as nat,
                );
            }
            return ;
        },
    };
    let a = layout.grid_boxes[i].area;
    let icon: u32 = (a.x as u32) + if a.width >= 4 {
        (a.width - 4) as u32
    } else {
        0
    };
    if row == a.y && (col as u32) >= icon {
        if section_item_count(app, s) > 0 {
            app.section_open = Some(s);
        }
        return ;
    }
    if double_click {
        crate::grid_keys::open_context_menu_at(app, s, row, col);
    } else {
        click_box_row(app, s, row, layout);
    }
}

fn open_overlay_menu(app: &mut App, s: Section, row: u16, col: u16)
    ensures
        final(app).overlay_menu_opened(old(app), s, row, col),
{
    proof {
        reveal(App::overlay_menu_opened);
    }
    let actions = actions_for(s, app.exploring.is_none());
    if actions.len() == 0 {
        return ;
    }
    let menu = ContextMenu { section: s, actions, selected: 0, anchor_row: row, anchor_col: col };
    let ghost o = *app;
    app.context_menu = Some(menu);
    assert(*app == (App { context_menu: Some(menu), ..o }));
}

/// A key for a popup other than the actions menu, which hands back no
/// action.
fn popup_key_no_hint(app: &mut App, key: Key)
    requires
        old(app).popup_keys_ok(),
        old(app).popup != Some(Popup::ActionsMenu),
    ensures
        final(app).popup_key_handled(old(app), key, None),
{
    let h = handle_popup_key(app, key);
    proof {
        reveal(App::popup_key_handled);
    }
    assert(h is None);
}

/// Handle a left click while a popup is open, against the popup box of the
/// last frame; what a hint run from the actions menu leaves to do comes
/// back.
pub fn handle_popup_click(app: &mut App, col: u16, row: u16, layout: &Layout) -> (r: HintRequest)
    requires
        old(app).popup_keys_ok(),
        old(app).popup == Some(Popup::ActionsMenu) ==> old(app).hints_ok(),
    ensures
        final(app).popup_click_handled(old(app), col, row, layout, r),
{
    proof {
        reveal(App::popup_click_handled);
    }
    let p = match app.popup {
        Some(p) => p,
        None => {
            return HintRequest::Done;
        },
    };
    let a = layout.popup;
    if !area_contains(&a, col, row) {
        app.popup = None;
        app.input_mode = InputMode::Normal;
        app.input_clear();
        return HintRequest::Done;
    }
    let k: u16 = if row >= a.y && row - a.y >= 1 {
        row - a.y - 1
    } else {
        0
    };
    assert(k == inner_row(a, row));
    if p == Popup::GenerateKey || p == Popup::SwitchNetwork || p == Popup::AddCommand {
        let count: u16 = if p == Popup::AddCommand {
            7
        } else {
            3
        };
        if 3 <= k && k < 3 + count {
            let key = if k == 3 {
                Key::Char('1')
            } else if k == 4 {
                Key::Char('2')
            } else if k == 5 {
                Key::Char('3')
            } else if k == 6 {
                Key::Char('4')
            } else if k == 7 {
                Key::Char('5')
            } else if k == 8 {
                Key::Char('6')
            } else {
                Key::Char('7')
            };
            assert(key == option_key(k - 3));
            popup_key_no_hint(app, key);
        }
        return HintRequest::Done;
    }
    if p == Popup::ConfirmDeleteAddress || p == Popup::ConfirmDeleteKey || p
        == Popup::ConfirmClearTx || p == Popup::ConfirmQuit {
        let line: u16 = if p == Popup::ConfirmDeleteAddress || p == Popup::ConfirmDeleteKey {
            5
        } else {
            3
        };
        if k == line {
            let left = (col as u32) < (a.x as u32) + (a.width as u32) / 2;
            if left {
                popup_key_no_hint(app, Key::Char('y'));
            } else {
                popup_key_no_hint(app, Key::Char('n'));
            }
        }
        return HintRequest::Done;
    }
    if p == Popup::ActionsMenu {
        let hs = clickable_hints_of(app.screen);
        if (k as usize) < hs.len() {
            let id = hs[k as usize].2;
            app.popup = None;
            return handle_hint_click(app, id);
        }
    }
    HintRequest::Done
}

fn take_menu(app: &mut App) -> (m: Option<ContextMenu>)
    ensures
        m == old(app).context_menu,
        *final(app) == (App { context_menu: None, ..*old(app) }),
{
    let m = app.context_menu.take();
    m
}

fn click_context_menu(app: &mut App, col: u16, row: u16, layout: &Layout) -> (r: KeyRequest)
    requires
        old(app).context_menu is Some,
    ensures
        final(app).menu_click_handled(old(app), col, row, layout, r),
{
    proof {
        reveal(App::menu_click_handled);
    }
    let cm = layout.context_menu;
    let ghost mid = App { context_menu: None, ..*old(app) };
    let m = match take_menu(app) {
        Some(m) => m,
        None => {
            return KeyRequest::Nothing;
        },
    };
    assert(*app == mid);
    if area_contains(&cm, col, row) && row >= cm.y && row - cm.y >= 1 && ((row - cm.y - 1) as usize)
        < m.actions.len() {
        let idx = (row - cm.y - 1) as usize;
        let action = m.actions[idx];
        let hr = execute_context_action(app, m.section, action);
        assert(app.context_action_done(&mid, m.section, m.actions@[row - cm.y - 1], hr));
        return to_request(hr);
    }
    KeyRequest::Nothing
}

fn click_plain(app: &mut App, col: u16, row: u16, double_click: bool, layout: &Layout) -> (r: KeyRequest)
    requires
        old(app).hints_ok(),
    ensures
        final(app).plain_click_handled(old(app), col, row, double_click, layout, r),
{
    proof {
        reveal(App::plain_click_handled);
    }
    match app.section_open {
        Some(s) => {
            if double_click {
                open_overlay_menu(app, s, row, col);
            }
            return KeyRequest::Nothing;
        },
        None => {},
    }
    if app.exploring.is_some() || app.tx_builder_open {
        return KeyRequest::Nothing;
    }
    match find_hit_box(&layout.grid_boxes, col, row) {
        Some(j) => {
            click_grid_box(app, j, col, row, double_click, layout);
            return KeyRequest::Nothing;
        },
        None => {},
    }
    match find_hint(&layout.hints, col, row) {
        Some(k) => {
            let id = layout.hints[k].1;
            let ghost o = *app;
            let hr = handle_hint_click(app, id);
            let r = to_request(hr);
            proof {
                // the hint found is the one the layout's first match names
                assert(layout.hints@[(hit_hint(layout.hints@, col, row)->0) as int].1@
                    == layout.hints@[k as int].1@);
                assert(r == request_of(hr));
                assert(app.hint_clicked(&o, layout.hints@[k as int].1@, hr));
            }
            r
        },
        None => KeyRequest::Nothing,
    }
}

/// Handle a left click at (`col`, `row`) against the layout of the last
/// frame, `double_click` when it repeats the last click on the same cell
/// soon enough; what is left to do comes back.
pub fn handle_click(app: &mut App, col: u16, row: u16, double_click: bool, layout: &Layout) -> (out: KeyOutcome)
    requires
        old(app).click_ok(),
    ensures
        final(app).click_handled(old(app), col, row, double_click, layout, out),
{
    proof {
        reveal(App::click_handled);
    }
    if app.popup.is_some() {
        let hr = handle_popup_click(app, col, row, layout);
        return KeyOutcome { request: to_request(hr), save_theme: None };
    }
    if app.context_menu.is_some() {
        let request = click_context_menu(app, col, row, layout);
        return KeyOutcome { request, save_theme: None };
    }
    if area_contains(&layout.net_tag, col, row) {
        app.open_popup(Popup::SwitchNetwork);
        return KeyOutcome { request: KeyRequest::Nothing, save_theme: None };
    }
    if area_contains(&layout.search_bar, col, row) {
        if !app.search_focused {
            app.search_focused = true;
            app.input_mode = InputMode::Editing;
        }
        return KeyOutcome { request: KeyRequest::Nothing, save_theme: None };
    }
    if app.search_focused {
        app.search_focused = false;
        app.input_mode = InputMode::Normal;
    }
    let request = click_plain(app, col, row, double_click, layout);
    KeyOutcome { request, save_theme: None }
}

} // verus!
