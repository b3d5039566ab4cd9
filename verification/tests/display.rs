use iota_wallet_tui::common::{
    capitalize, clamp_scroll, hint_description, screen_hints, short_type_name, sparkle_text,
    truncate_address, truncate_type,
};
use iota_wallet_tui::types::{truncate_id, Screen};

#[test]
fn sparkles_follow_the_phase() {
    assert_eq!(sparkle_text(0, "Hi"), "Hi");
    assert_eq!(sparkle_text(1, "A"), "✦ A ✦");
    assert_eq!(sparkle_text(5, "Hi"), "✧ Hi ✧");
    assert_eq!(sparkle_text(10, "x"), "⋆ x ⋆");
    assert_eq!(sparkle_text(15, "x"), "˚ x ˚");
    assert_eq!(sparkle_text(20, "x"), "✦ x ✦");
}

#[test]
fn capitalize_first_letter() {
    assert_eq!(capitalize("merge"), "Merge");
    assert_eq!(capitalize(""), "");
    assert_eq!(capitalize("type-search"), "Type-search");
}

#[test]
fn short_type_name_plain_and_generic() {
    assert_eq!(short_type_name("0x2::iota::IOTA"), "IOTA");
    assert_eq!(short_type_name("0xabc::module::MyStruct<0x2::coin::Coin>"), "MyStruct<Coin>");
    assert_eq!(short_type_name("0x2::coin::Coin<0x2::iota::IOTA>"), "Coin<IOTA>");
    assert_eq!(short_type_name("a::B<x::C, y::D<z::E>>"), "B<C, D<E>>");
    assert_eq!(short_type_name("Plain"), "Plain");
    assert_eq!(short_type_name("A<>"), "A<>");
}

#[test]
fn truncate_type_cases() {
    assert_eq!(truncate_type("abc", 10), "abc");
    assert_eq!(truncate_type("0x2::coin::Coin", 8), "0x2::...");
    assert_eq!(truncate_type("abcdef", 4), "abcd");
}

#[test]
fn truncate_address_cases() {
    assert_eq!(truncate_address("0x1234567890abcdef", 10), "0x12..cdef");
    assert_eq!(truncate_address("0x1234", 4), "0x12");
    assert_eq!(truncate_address("0x12", 10), "0x12");
    assert_eq!(truncate_address("0x1234567890abcdef1234", 12), "0x123..f1234");
}

#[test]
fn truncate_id_keeps_both_ends() {
    assert_eq!(truncate_id("0x1234567890abcdef", 8), "0x12..cdef");
    assert_eq!(truncate_id("0x12", 8), "0x12");
}

#[test]
fn clamp_scroll_limits_offset() {
    let mut s = 10;
    clamp_scroll(&mut s, 15, 10);
    assert_eq!(s, 5);
    let mut s = 3;
    clamp_scroll(&mut s, 15, 10);
    assert_eq!(s, 3);
    let mut s = 4;
    clamp_scroll(&mut s, 5, 10);
    assert_eq!(s, 0);
}

#[test]
fn hints_per_screen() {
    let h = screen_hints(Screen::Explorer);
    assert_eq!(h.len(), 3);
    assert_eq!(h[0], ("Enter", "search", "explore"));
    assert_eq!(screen_hints(Screen::Coins).len(), 12);
    assert_eq!(screen_hints(Screen::TxBuilder)[2], ("c", "clear", "tx_clear"));
}

#[test]
fn hint_descriptions() {
    assert_eq!(hint_description("m", "merge", Screen::Coins), "Merge selected coins");
    assert_eq!(hint_description("c", "copy", Screen::Objects), "Copy selected to clipboard");
    assert_eq!(hint_description("x", "transfer", Screen::Objects), "transfer");
    assert_eq!(hint_description("/", "search", Screen::Coins), "Filter list");
    assert_eq!(hint_description("Enter", "search", Screen::Explorer), "Search / lookup");
}

#[test]
fn screen_index_and_title() {
    assert_eq!(Screen::Coins.index(), 0);
    assert_eq!(Screen::Explorer.index(), 8);
    assert_eq!(Screen::AddressBook.title(), "Address Book");
}
