//! Where popups are drawn: a box centred in the frame with a share of its
//! size and a minimum, and the actions menu above the status bar, under its
//! button. Clicks are hit-tested against the same boxes.

use vstd::prelude::*;
use crate::grid_keys::Area;
use crate::popup_keys::{clickable_hints, clickable_hints_of};
use crate::seqs::{first_index, lemma_first_index_found};
use crate::types::{Popup, Screen};

verus! {

/// The larger of two numbers.
pub open spec fn max_of(a: int, b: int) -> int {
    if a >= b {
        a
    } else {
        b
    }
}

/// The smaller of two numbers.
pub open spec fn min_of(a: int, b: int) -> int {
    if a <= b {
        a
    } else {
        b
    }
}

/// A box of `percent_x`% by `percent_y`% of `a` (but at least
/// `min_w` by `min_h`, and at most `a`), centred in `a`.
pub open spec fn spec_centered_rect_min(
    percent_x: u16,
    percent_y: u16,
    min_w: u16,
    min_h: u16,
    a: Area,
) -> Area {
    let w = min_of(max_of(a.width * percent_x / 100, min_w as int), a.width as int);
    let h = min_of(max_of(a.height * percent_y / 100, min_h as int), a.height as int);
    Area {
        x: (a.x + (a.width - w) / 2) as u16,
        y: (a.y + (a.height - h) / 2) as u16,
        width: w as u16,
        height: h as u16,
    }
}

/// What `centered_rect_min` needs: the share computed in `u16` without
/// overflow, and the area's far edges within `u16`.
pub open spec fn centered_ok(percent_x: u16, percent_y: u16, a: Area) -> bool {
    &&& a.width * percent_x <= u16::MAX
    &&& a.height * percent_y <= u16::MAX
    &&& a.x + a.width <= u16::MAX
    &&& a.y + a.height <= u16::MAX
}

/// A box centred in `a`: `percent_x`% by `percent_y`% of it, at least
/// `min_w` by `min_h`, at most `a`.
pub fn centered_rect_min(percent_x: u16, percent_y: u16, min_w: u16, min_h: u16, a: Area) -> (r: Area)
    requires
        centered_ok(percent_x, percent_y, a),
    ensures
        r == spec_centered_rect_min(percent_x, percent_y, min_w, min_h, a),
{
    let w0 = a.width * percent_x / 100;
    let w1 = if w0 >= min_w {
        w0
    } else {
        min_w
    };
    let w = if w1 <= a.width {
        w1
    } else {
        a.width
    };
    let h0 = a.height * percent_y / 100;
    let h1 = if h0 >= min_h {
        h0
    } else {
        min_h
    };
    let h = if h1 <= a.height {
        h1
    } else {
        a.height
    };
    Area { x: a.x + (a.width - w) / 2, y: a.y + (a.height - h) / 2, width: w, height: h }
}

/// The share and minimum size of each centred popup's box (percent wide,
/// percent high, minimum width, minimum height).
pub open spec fn popup_params(p: Popup) -> (u16, u16, u16, u16) {
    match p {
        Popup::Help => (70, 80, 50, 24),
        Popup::Detail => (65, 70, 50, 16),
        Popup::AddAddress => (60, 60, 48, 14),
        Popup::EditAddress => (60, 60, 48, 14),
        Popup::GenerateKey => (50, 40, 36, 11),
        Popup::GenerateKeyAlias => (50, 30, 40, 8),
        Popup::ImportKey => (60, 30, 48, 10),
        Popup::AddCommand => (50, 50, 40, 16),
        Popup::AddCommandForm => (65, 60, 52, 14),
        Popup::RenameKey => (50, 30, 40, 8),
        Popup::SwitchNetwork => (50, 50, 44, 16),
        Popup::ConfirmDeleteAddress => (55, 40, 44, 10),
        Popup::ConfirmDeleteKey => (55, 40, 44, 10),
        Popup::ConfirmClearTx => (55, 40, 44, 10),
        Popup::LookupIotaName => (60, 30, 48, 10),
        Popup::ErrorLog => (80, 80, 60, 20),
        Popup::ConfirmQuit => (50, 30, 40, 7),
        Popup::SplitCoin => (50, 30, 40, 9),
        Popup::MergeCoin => (60, 60, 50, 0),
        Popup::QuickTransfer => (60, 50, 48, 13),
        Popup::ObjectTransfer => (60, 40, 48, 10),
        Popup::ActionsMenu => (0, 0, 0, 0),
        Popup::Settings => (75, 75, 60, 20),
        Popup::Welcome => (50, 30, 42, 9),
    }
}

fn popup_params_of(p: Popup) -> (r: (u16, u16, u16, u16))
    ensures
        r == popup_params(p),
{
    match p {
        Popup::Help => (70, 80, 50, 24),
        Popup::Detail => (65, 70, 50, 16),
        Popup::AddAddress => (60, 60, 48, 14),
        Popup::EditAddress => (60, 60, 48, 14),
        Popup::GenerateKey => (50, 40, 36, 11),
        Popup::GenerateKeyAlias => (50, 30, 40, 8),
        Popup::ImportKey => (60, 30, 48, 10),
        Popup::AddCommand => (50, 50, 40, 16),
        Popup::AddCommandForm => (65, 60, 52, 14),
        Popup::RenameKey => (50, 30, 40, 8),
        Popup::SwitchNetwork => (50, 50, 44, 16),
        Popup::ConfirmDeleteAddress => (55, 40, 44, 10),
        Popup::ConfirmDeleteKey => (55, 40, 44, 10),
        Popup::ConfirmClearTx => (55, 40, 44, 10),
        Popup::LookupIotaName => (60, 30, 48, 10),
        Popup::ErrorLog => (80, 80, 60, 20),
        Popup::ConfirmQuit => (50, 30, 40, 7),
        Popup::SplitCoin => (50, 30, 40, 9),
        Popup::MergeCoin => (60, 60, 50, 0),
        Popup::QuickTransfer => (60, 50, 48, 13),
        Popup::ObjectTransfer => (60, 40, 48, 10),
        Popup::ActionsMenu => (0, 0, 0, 0),
        Popup::Settings => (75, 75, 60, 20),
        Popup::Welcome => (50, 30, 42, 9),
    }
}

/// The first hint area of the "open_menu" button.
pub open spec fn menu_button(hints: Seq<(Area, &'static str)>) -> Option<nat> {
    first_index(hints.len(), |j: int| hints[j].1@ == "open_menu"@)
}

/// The actions menu's box: 28 wide, one line per clickable hint of the
/// screen between two borders, left edge at the menu button (or 0) but not
/// past the right edge, bottom just above the status bar; clipped to the
/// frame.
pub open spec fn spec_actions_menu_area(screen: Screen, hints: Seq<(Area, &'static str)>, frame: Area) -> Area {
    let rows = clickable_hints(screen).len();
    let height = rows + 2;
    let bx: int = match menu_button(hints) {
        Some(i) => hints[i as int].0.x as int,
        None => 0,
    };
    let room = if frame.width >= 28 {
        frame.width - 28
    } else {
        0
    };
    let x = min_of(bx, room);
    let status_y = frame.y + if frame.height >= 1 {
        frame.height - 1
    } else {
        0
    };
    let y = if status_y >= height {
        status_y - height
    } else {
        0
    };
    Area {
        x: x as u16,
        y: y as u16,
        width: min_of(28, frame.width as int) as u16,
        height: min_of(height as int, frame.height as int) as u16,
    }
}

fn find_menu_button(hints: &Vec<(Area, &'static str)>) -> (r: Option<usize>)
    ensures
        match r {
            Some(i) => menu_button(hints@) == Some(i as nat) && i < hints@.len(),
            None => menu_button(hints@) is None,
        },
{
    let ghost p = |j: int| hints@[j].1@ == "open_menu"@;
    for i in 0..hints.len()
        invariant
            first_index(i as nat, p) is None,
            p == (|j: int| hints@[j].1@ == "open_menu"@),
    {
        if crate::text::str_eq(hints[i].1, "open_menu") {
            proof {
                lemma_first_index_found(hints@.len(), p, i as nat);
            }
            return Some(i);
        }
    }
    None
}

/// The actions menu's box (see `spec_actions_menu_area`).
pub fn actions_menu_area(screen: Screen, hints: &Vec<(Area, &'static str)>, frame: Area) -> (r: Area)
    requires
        frame.y + frame.height <= u16::MAX,
    ensures
        r == spec_actions_menu_area(screen, hints@, frame),
{
    let rows = clickable_hints_of(screen).len();
    let height: usize = rows + 2;
    let bx: u16 = match find_menu_button(hints) {
        Some(i) => hints[i].0.x,
        None => 0,
    };
    let room: u16 = if frame.width >= 28 {
        frame.width - 28
    } else {
        0
    };
    let x = if bx <= room {
        bx
    } else {
        room
    };
    let status_y: u16 = frame.y + if frame.height >= 1 {
        frame.height - 1
    } else {
        0
    };
    let y: u16 = if (status_y as usize) >= height {
        status_y - (height as u16)
    } else {
        0
    };
    let width = if 28 <= frame.width {
        28
    } else {
        frame.width
    };
    let h: u16 = if height <= (frame.height as usize) {
        height as u16
    } else {
        frame.height
    };
    Area { x, y, width, height: h }
}

/// The box of popup `p` in `frame`; the merge popup grows with its
/// `merge_count` candidates (up to two rows short of the frame).
pub open spec fn spec_popup_area(
    p: Popup,
    frame: Area,
    merge_count: nat,
    screen: Screen,
    hints: Seq<(Area, &'static str)>,
) -> Area {
    let (px, py, mw, mh) = popup_params(p);
    if p == Popup::ActionsMenu {
        spec_actions_menu_area(screen, hints, frame)
    } else if p == Popup::MergeCoin {
        spec_centered_rect_min(px, py, mw, min_of(merge_count + 6int, frame.height - 2) as u16, frame)
    } else {
        spec_centered_rect_min(px, py, mw, mh, frame)
    }
}

/// What `popup_area` needs: the centred boxes computed without overflow, a
/// frame at least two rows high, and a merge list that fits a `u16`.
pub open spec fn popup_area_ok(frame: Area, merge_count: nat) -> bool {
    &&& centered_ok(80, 80, frame)
    &&& frame.height >= 2
    &&& merge_count + 6 <= u16::MAX
}

/// The box popup `p` is drawn in (see `spec_popup_area`).
pub fn popup_area(
    p: Popup,
    frame: Area,
    merge_count: usize,
    screen: Screen,
    hints: &Vec<(Area, &'static str)>,
) -> (r: Area)
    requires
        popup_area_ok(frame, merge_count as nat),
    ensures
        r == spec_popup_area(p, frame, merge_count as nat, screen, hints@),
{
    let (px, py, mw, mh) = popup_params_of(p);
    if p == Popup::ActionsMenu {
        return actions_menu_area(screen, hints, frame);
    }
    assert(px <= 80 && py <= 80);
    assert(frame.width * px <= frame.width * 80) by (nonlinear_arith)
        requires
            px <= 80,
    ;
    assert(frame.height * py <= frame.height * 80) by (nonlinear_arith)
        requires
            py <= 80,
    ;
    if p == Popup::MergeCoin {
        let n: u16 = (merge_count as u16) + 6;
        let cap: u16 = frame.height - 2;
        let h = if n <= cap {
            n
        } else {
            cap
        };
        return centered_rect_min(px, py, mw, h, frame);
    }
    centered_rect_min(px, py, mw, mh, frame)
}

} // verus!
