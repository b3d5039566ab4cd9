use iota_wallet_tui::common::screen_hints;
use iota_wallet_tui::geometry::{actions_menu_area, centered_rect_min, popup_area};
use iota_wallet_tui::grid_keys::Area;
use iota_wallet_tui::types::{Popup, Screen};

fn area(x: u16, y: u16, w: u16, h: u16) -> Area {
    Area { x, y, width: w, height: h }
}

#[test]
fn centred_box_takes_share_minimum_and_frame_limit() {
    assert_eq!(centered_rect_min(70, 80, 50, 24, area(0, 0, 80, 24)), area(12, 0, 56, 24));
    // the minimum wins over a small share, the frame over the minimum
    assert_eq!(centered_rect_min(10, 10, 30, 40, area(5, 5, 60, 20)), area(20, 5, 30, 20));
}

#[test]
fn merge_popup_grows_with_candidates() {
    let none: Vec<(Area, &'static str)> = vec![];
    let a = popup_area(Popup::MergeCoin, area(0, 0, 80, 24), 3, Screen::Coins, &none);
    assert_eq!(a, area(15, 5, 50, 14));
    let b = popup_area(Popup::MergeCoin, area(0, 0, 80, 24), 30, Screen::Coins, &none);
    assert_eq!(b.height, 22);
}

#[test]
fn actions_menu_sits_above_the_status_bar_under_its_button() {
    let hints: Vec<(Area, &'static str)> = vec![(area(3, 23, 5, 1), "refresh"), (area(40, 23, 6, 1), "open_menu")];
    let n = screen_hints(Screen::Coins).iter().filter(|h| !h.2.is_empty()).count() as u16;
    let a = actions_menu_area(Screen::Coins, &hints, area(0, 0, 80, 24));
    assert_eq!(a, area(40, 23 - (n + 2), 28, n + 2));
    let b = actions_menu_area(Screen::Coins, &vec![], area(0, 0, 80, 24));
    assert_eq!(b.x, 0);
    assert_eq!(popup_area(Popup::ActionsMenu, area(0, 0, 80, 24), 0, Screen::Coins, &hints), a);
}
