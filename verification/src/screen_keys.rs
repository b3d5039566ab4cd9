//! Keys on the list screens (keys, address book, packages, coins, objects,
//! transactions) and in the transaction builder.

use vstd::prelude::*;
use crate::hints::{
    HintRequest, click_tx_clear, click_tx_delete, click_addr_add, click_addr_delete, click_addr_edit, click_key_activate, click_key_rename,
    click_key_visible, click_popup_with_blank_input,
};
use crate::keys::{Key, handle_input_key};
use crate::nav::{ListNav, NavKey, nav_target};
use crate::seqs::{index_filter, lemma_index_filter_members};
use crate::state::App;
use crate::text::{byte_len, chars_of, string_of};
use crate::tx_builder::{TxBuilderState, transfer_total};
use crate::types::{InputMode, Popup, PtbCommand, TxBuilderStep};
use crate::wallet::WalletCmd;

verus! {

/// The list key that `key` is, if any.
pub open spec fn nav_key_of(key: Key) -> NavKey {
    match key {
        Key::Up => NavKey::Up,
        Key::Down => NavKey::Down,
        Key::Home => NavKey::Home,
        Key::End => NavKey::End,
        Key::PageUp => NavKey::PageUp,
        Key::PageDown => NavKey::PageDown,
        _ => NavKey::Other,
    }
}

fn to_nav_key(key: Key) -> (n: NavKey)
    ensures
        n == nav_key_of(key),
{
    match key {
        Key::Up => NavKey::Up,
        Key::Down => NavKey::Down,
        Key::Home => NavKey::Home,
        Key::End => NavKey::End,
        Key::PageUp => NavKey::PageUp,
        Key::PageDown => NavKey::PageDown,
        _ => NavKey::Other,
    }
}

/// The selection and scroll offset of a list of `len` rows after `key`,
/// or `None` when `key` does not move through lists.
pub open spec fn list_moved(sel: usize, off: usize, len: nat, rows: usize, key: Key) -> Option<
    (usize, usize),
> {
    match nav_target(sel as nat, len, nav_key_of(key)) {
        Some(t) => Some(
            (t as usize, App::spec_scroll_into_view(t, off as nat, rows as nat) as usize),
        ),
        None => None,
    }
}

/// A list position that moving can handle without overflow.
pub open spec fn list_ok(sel: usize, off: usize, rows: usize) -> bool {
    sel + 10 <= usize::MAX && off + rows <= usize::MAX
}

fn move_in_list(sel: usize, off: usize, len: usize, rows: usize, key: Key) -> (r: Option<
    (usize, usize),
>)
    requires
        list_ok(sel, off, rows),
    ensures
        r == list_moved(sel, off, len as nat, rows, key),
{
    let mut nav = ListNav { selected: sel, offset: off, len, visible_rows: rows };
    if nav.handle_key(to_nav_key(key)) {
        Some((nav.selected, nav.offset))
    } else {
        None
    }
}

impl App {
    /// What a key does on the Keys screen: move through the keys, explore
    /// the selected one's address, activate, generate, import, rename, show
    /// or hide it, reveal private keys, or ask to delete it.
    #[verifier::opaque]
    pub open spec fn keys_key_handled(&self, o: &App, key: Key) -> bool {
        let sel = o.keys_selected;
        match list_moved(sel, o.keys_offset, o.keys@.len(), o.content_visible_rows, key) {
            Some((s, f)) => *self == (App { keys_selected: s, keys_offset: f, ..*o }),
            None => if key == Key::Enter {
                if sel < o.keys@.len() {
                    self.explored(o, o.keys@[sel as int].address)
                } else {
                    *self == *o
                }
            } else if key == Key::Char('a') {
                self.key_activate_clicked(o)
            } else if key == Key::Char('g') {
                self.popup_opened(o, Popup::GenerateKey)
            } else if key == Key::Char('i') {
                self.popup_with_input(o, Popup::ImportKey, Seq::empty())
            } else if key == Key::Char('e') {
                if sel < o.keys@.len() {
                    self.popup_with_input(o, Popup::RenameKey, o.keys@[sel as int].alias@)
                } else {
                    *self == *o
                }
            } else if key == Key::Char('p') {
                *self == (App { keys_show_private: !o.keys_show_private, ..*o })
            } else if key == Key::Char(' ') {
                self.key_visible_clicked(o)
            } else if key == Key::Char('d') || key == Key::Delete {
                if o.keys@.len() > 0 {
                    self.popup_opened(o, Popup::ConfirmDeleteKey)
                } else {
                    *self == *o
                }
            } else {
                *self == *o
            },
        }
    }

    /// What the Keys screen needs: a list position that can move, and an
    /// alias the input line can take when renaming.
    pub open spec fn keys_key_ok(&self, key: Key) -> bool {
        &&& list_ok(self.keys_selected, self.keys_offset, self.content_visible_rows)
        &&& key == Key::Char('e') && self.keys_selected < self.keys@.len() ==> byte_len(
            self.keys@[self.keys_selected as int].alias@,
        ) + 4 <= usize::MAX
    }
}

/// Keys on the Keys screen.
pub fn handle_keys_key(app: &mut App, key: Key)
    requires
        old(app).keys_key_ok(key),
    ensures
        final(app).keys_key_handled(old(app), key),
{
    proof {
        reveal(App::keys_key_handled);
    }
    match move_in_list(
        app.keys_selected,
        app.keys_offset,
        app.keys.len(),
        app.content_visible_rows,
        key,
    ) {
        Some((s, f)) => {
            app.keys_selected = s;
            app.keys_offset = f;
            return ;
        },
        None => {},
    }
    match key {
        Key::Enter => {
            if app.keys_selected < app.keys.len() {
                let addr = app.keys[app.keys_selected].address.clone();
                app.explore_item(addr);
            }
        },
        Key::Char(c) => {
            if c == 'a' {
                click_key_activate(app);
            } else if c == 'g' {
                app.open_popup(Popup::GenerateKey);
            } else if c == 'i' {
                click_popup_with_blank_input(app, Popup::ImportKey);
            } else if c == 'e' {
                click_key_rename(app);
            } else if c == 'p' {
                app.keys_show_private = !app.keys_show_private;
            } else if c == ' ' {
                click_key_visible(app);
            } else if c == 'd' {
                if app.keys.len() > 0 {
                    app.open_popup(Popup::ConfirmDeleteKey);
                }
            }
        },
        Key::Delete => {
            if app.keys.len() > 0 {
                app.open_popup(Popup::ConfirmDeleteKey);
            }
        },
        _ => {},
    }
}

impl App {
    /// What a key does on the address book: move through the combined list
    /// (keys first), explore the selected address, add, edit or delete one
    /// of the user's entries, or look a name up.
    #[verifier::opaque]
    pub open spec fn address_key_handled(&self, o: &App, key: Key) -> bool {
        let len = o.keys@.len() + o.address_book@.len();
        match list_moved(o.address_selected, o.address_offset, len, o.content_visible_rows, key) {
            Some((s, f)) => *self == (App { address_selected: s, address_offset: f, ..*o }),
            None => if key == Key::Enter {
                match o.combined_address(o.address_selected as int) {
                    Some(a) => self.explored(o, a),
                    None => *self == *o,
                }
            } else if key == Key::Char('a') {
                self.addr_add_clicked(o)
            } else if key == Key::Char('e') {
                self.addr_edit_clicked(o)
            } else if key == Key::Char('d') || key == Key::Delete {
                if o.selected_book_index() is Some {
                    self.popup_opened(o, Popup::ConfirmDeleteAddress)
                } else {
                    *self == *o
                }
            } else if key == Key::Char('l') {
                self.popup_with_input(o, Popup::LookupIotaName, Seq::empty())
            } else {
                *self == *o
            },
        }
    }

    /// What the address book needs: a list position that can move, a list
    /// whose length fits, and a label the input line can take when editing.
    pub open spec fn address_key_ok(&self, key: Key) -> bool {
        &&& list_ok(self.address_selected, self.address_offset, self.content_visible_rows)
        &&& self.keys@.len() + self.address_book@.len() <= usize::MAX
        &&& key == Key::Char('e') ==> (self.selected_book_index() matches Some(i) ==> byte_len(
            self.address_book@[i as int].label@,
        ) + 4 <= usize::MAX)
    }
}

/// Keys on the address book screen.
pub fn handle_address_key(app: &mut App, key: Key)
    requires
        old(app).address_key_ok(key),
    ensures
        final(app).address_key_handled(old(app), key),
{
    proof {
        reveal(App::address_key_handled);
    }
    let len = app.key_entry_count() + app.address_book.len();
    match move_in_list(app.address_selected, app.address_offset, len, app.content_visible_rows, key) {
        Some((s, f)) => {
            app.address_selected = s;
            app.address_offset = f;
            return ;
        },
        None => {},
    }
    match key {
        Key::Enter => app.activate_selected_address(),
        Key::Char(c) => {
            if c == 'a' {
                click_addr_add(app);
            } else if c == 'e' {
                click_addr_edit(app);
            } else if c == 'd' {
                click_addr_delete(app);
            } else if c == 'l' {
                click_popup_with_blank_input(app, Popup::LookupIotaName);
            }
        },
        Key::Delete => click_addr_delete(app),
        _ => {},
    }
}

impl App {
    /// What a key does on the packages screen: move through the packages
    /// among the objects, or explore the selected one.
    #[verifier::opaque]
    pub open spec fn packages_key_handled(&self, o: &App, key: Key) -> bool {
        let p = o.spec_package_indices();
        match list_moved(o.packages_selected, o.packages_offset, p.len(), o.content_visible_rows, key) {
            Some((s, f)) => *self == (App { packages_selected: s, packages_offset: f, ..*o }),
            None => if key == Key::Enter {
                if o.packages_selected < p.len() {
                    self.explored(o, o.objects@[p[o.packages_selected as int] as int].object_id)
                } else {
                    *self == *o
                }
            } else {
                *self == *o
            },
        }
    }
}

/// Keys on the packages screen.
pub fn handle_packages_key(app: &mut App, key: Key)
    requires
        list_ok(old(app).packages_selected, old(app).packages_offset, old(app).content_visible_rows),
    ensures
        final(app).packages_key_handled(old(app), key),
{
    proof {
        reveal(App::packages_key_handled);
    }
    let packages = app.package_indices();
    match move_in_list(
        app.packages_selected,
        app.packages_offset,
        packages.len(),
        app.content_visible_rows,
        key,
    ) {
        Some((s, f)) => {
            app.packages_selected = s;
            app.packages_offset = f;
            return ;
        },
        None => {},
    }
    if key == Key::Enter {
        app.activate_selected_package();
    }
}

// ── Lists with a text filter ──────────────────────────────────────

/// A filter as text, if one is open.
pub open spec fn filter_view(f: Option<String>) -> Option<Seq<char>> {
    match f {
        Some(s) => Some(s@),
        None => None,
    }
}

/// The filter after a key while it is open: Esc closes it, Backspace drops
/// the last character (closing a filter it empties), a character is added.
pub open spec fn filter_after(q: Seq<char>, key: Key) -> Option<Seq<char>> {
    match key {
        Key::Esc => None,
        Key::Backspace => if q.len() <= 1 {
            None
        } else {
            Some(q.drop_last())
        },
        Key::Char(c) => Some(q.push(c)),
        _ => Some(q),
    }
}

/// Selection and offset after a key while the filter is open, before they
/// are clamped to the rows that match: editing goes back to the top; Up
/// and Down move within the `len` matching rows.
pub open spec fn filter_pre_selection(sel: usize, off: usize, len: nat, key: Key) -> (usize, usize) {
    match key {
        Key::Esc => (0, 0),
        Key::Backspace => (0, 0),
        Key::Char(_) => (0, 0),
        Key::Up => (
            if sel > 0 {
                (sel - 1) as usize
            } else {
                sel
            },
            off,
        ),
        Key::Down => (
            if sel + 1 < len {
                (sel + 1) as usize
            } else {
                sel
            },
            off,
        ),
        _ => (sel, off),
    }
}

/// A selection past the last of `len` rows moves onto the last row.
pub open spec fn clamp_selection(sel: usize, len: nat) -> usize {
    if sel >= len {
        if len > 0 {
            (len - 1) as usize
        } else {
            0
        }
    } else {
        sel
    }
}

fn edit_filter(q: &String, key: Key) -> (r: Option<String>)
    ensures
        filter_view(r) == filter_after(q@, key),
{
    match key {
        Key::Esc => None,
        Key::Backspace => {
            let mut v = chars_of(q.as_str());
            let _ = v.pop();
            if v.len() == 0 {
                None
            } else {
                Some(string_of(&v))
            }
        },
        Key::Char(c) => {
            let mut v = chars_of(q.as_str());
            v.push(c);
            Some(string_of(&v))
        },
        _ => Some(q.clone()),
    }
}

fn pre_selection(sel: usize, off: usize, len: usize, key: Key) -> (r: (usize, usize))
    ensures
        r == filter_pre_selection(sel, off, len as nat, key),
{
    match key {
        Key::Esc => (0, 0),
        Key::Backspace => (0, 0),
        Key::Char(_) => (0, 0),
        Key::Up => (
            if sel > 0 {
                sel - 1
            } else {
                sel
            },
            off,
        ),
        Key::Down => (
            if len > 0 && sel < len - 1 {
                sel + 1
            } else {
                sel
            },
            off,
        ),
        _ => (sel, off),
    }
}

fn clamp_to(sel: usize, len: usize) -> (r: usize)
    ensures
        r == clamp_selection(sel, len as nat),
{
    if sel >= len {
        if len > 0 {
            len - 1
        } else {
            0
        }
    } else {
        sel
    }
}

impl App {
    /// A key on the coin list while its filter is open: the filter is
    /// edited or closed, the selection moves among the matching coins, and
    /// Enter explores the selected match; the selection is then kept on a
    /// match and scrolled into view.
    pub open spec fn coins_filter_key(&self, o: &App, key: Key) -> bool {
        let fl = o.spec_filtered_coins();
        let sel = o.coins_selected;
        let rows = o.content_visible_rows as nat;
        if key == Key::Enter && sel < fl.len() {
            let idx = fl[sel as int];
            &&& (App { coins_selected: idx, coins_offset: o.coins_offset, ..*self }).explored(
                &App { coins_selected: idx, ..*o },
                o.coins@[idx as int].object_id,
            )
            &&& self.coins_selected == clamp_selection(sel, self.spec_filtered_coins().len())
            &&& self.coins_offset == App::spec_scroll_into_view(
                self.coins_selected as nat,
                o.coins_offset as nat,
                rows,
            )
        } else {
            let (ps, po) = filter_pre_selection(sel, o.coins_offset, fl.len(), key);
            &&& filter_view(self.coins_filter) == filter_after(filter_view(o.coins_filter)->0, key)
            &&& self.coins_selected == clamp_selection(ps, self.spec_filtered_coins().len())
            &&& self.coins_offset == App::spec_scroll_into_view(self.coins_selected as nat, po as nat, rows)
            &&& *self == (App {
                coins_filter: self.coins_filter,
                coins_selected: self.coins_selected,
                coins_offset: self.coins_offset,
                ..*o
            })
        }
    }

    /// What a key does on the coin list: with the filter open, see
    /// `coins_filter_key`; else move through the coins, explore the
    /// selected coin or its type, ask the faucet for the active key
    /// (handed back in `r`), or open the filter.
    #[verifier::opaque]
    pub open spec fn coins_key_handled(&self, o: &App, key: Key, r: HintRequest) -> bool {
        let sel = o.coins_selected;
        if o.coins_filter is Some {
            r == HintRequest::Done && self.coins_filter_key(o, key)
        } else {
            match list_moved(sel, o.coins_offset, o.coins@.len(), o.content_visible_rows, key) {
                Some((s, f)) => r == HintRequest::Done && *self == (App {
                    coins_selected: s,
                    coins_offset: f,
                    ..*o
                }),
                None => if key == Key::Char('f') {
                    &&& r == match o.spec_active_index() {
                        Some(i) => HintRequest::Faucet(o.keys@[i as int].address),
                        None => HintRequest::Done,
                    }
                    &&& *self == *o
                } else {
                    &&& r == HintRequest::Done
                    &&& if key == Key::Enter {
                        if sel < o.coins@.len() {
                            self.explored(o, o.coins@[sel as int].object_id)
                        } else {
                            *self == *o
                        }
                    } else if key == Key::Char('t') {
                        if sel < o.coins@.len() {
                            self.type_explored(o, o.coins@[sel as int].coin_type)
                        } else {
                            *self == *o
                        }
                    } else if key == Key::Char('/') {
                        &&& self.coins_filter matches Some(q) && q@.len() == 0
                        &&& *self == (App {
                            coins_filter: self.coins_filter,
                            coins_selected: 0,
                            coins_offset: 0,
                            ..*o
                        })
                    } else {
                        *self == *o
                    }
                },
            }
        }
    }

    /// What the coin list needs: a list position that can move and a
    /// scroll window that fits.
    pub open spec fn coins_key_ok(&self) -> bool {
        list_ok(self.coins_selected, self.coins_offset, self.content_visible_rows)
    }
}

/// Every index an index filter keeps is below its bound.
pub(crate) proof fn lemma_index_filters_in_range()
    ensures
        forall|n: nat, p: spec_fn(int) -> bool, k: int|
            n <= usize::MAX + 1 && 0 <= k < index_filter(n, p).len() ==> #[trigger] index_filter(
                n,
                p,
            )[k] < n,
{
    assert forall|n: nat, p: spec_fn(int) -> bool, k: int|
        n <= usize::MAX + 1 && 0 <= k < index_filter(n, p).len() implies #[trigger] index_filter(
        n,
        p,
    )[k] < n by {
        lemma_index_filter_members(n, p);
    }
}

/// Selection and offset kept on the matching rows and scrolled into view.
fn settle_coins(app: &mut App)
    requires
        old(app).coins_offset + old(app).content_visible_rows <= usize::MAX,
    ensures
        final(app).coins_selected == clamp_selection(
            old(app).coins_selected,
            old(app).spec_filtered_coins().len(),
        ),
        final(app).coins_offset == App::spec_scroll_into_view(
            final(app).coins_selected as nat,
            old(app).coins_offset as nat,
            old(app).content_visible_rows as nat,
        ),
        *final(app) == (App {
            coins_selected: final(app).coins_selected,
            coins_offset: final(app).coins_offset,
            ..*old(app)
        }),
{
    let after = app.filtered_coins();
    app.coins_selected = clamp_to(app.coins_selected, after.len());
    App::scroll_into_view(app.coins_selected, &mut app.coins_offset, app.content_visible_rows);
}

#[verifier::rlimit(50)]
fn coins_filter_key(app: &mut App, key: Key)
    requires
        old(app).coins_filter is Some,
        old(app).coins_key_ok(),
    ensures
        final(app).coins_filter_key(old(app), key),
{
    let filtered = app.filtered_coins();
    let sel = app.coins_selected;
    let n = app.coins.len();
    if key == Key::Enter && sel < filtered.len() {
        let idx = filtered[sel];
        proof {
            lemma_index_filters_in_range();
            assert(idx < n);
        }
        app.coins_selected = idx;
        app.activate_selected_coin();
        app.coins_selected = sel;
        settle_coins(app);
        return ;
    }
    let (ps, po) = pre_selection(sel, app.coins_offset, filtered.len(), key);
    let q = match &app.coins_filter {
        Some(q) => edit_filter(q, key),
        None => None,
    };
    app.coins_filter = q;
    app.coins_selected = ps;
    app.coins_offset = po;
    settle_coins(app);
}

/// Keys on the coin list; a faucet request is handed back for the caller
/// to check the address and send.
pub fn handle_coins_key(app: &mut App, key: Key) -> (r: HintRequest)
    requires
        old(app).coins_key_ok(),
    ensures
        final(app).coins_key_handled(old(app), key, r),
{
    proof {
        reveal(App::coins_key_handled);
    }
    if app.coins_filter.is_some() {
        coins_filter_key(app, key);
        return HintRequest::Done;
    }
    match move_in_list(
        app.coins_selected,
        app.coins_offset,
        app.coins.len(),
        app.content_visible_rows,
        key,
    ) {
        Some((s, f)) => {
            app.coins_selected = s;
            app.coins_offset = f;
            return HintRequest::Done;
        },
        None => {},
    }
    match key {
        Key::Enter => app.activate_selected_coin(),
        Key::Char(c) => {
            if c == 't' {
                if app.coins_selected < app.coins.len() {
                    let t = app.coins[app.coins_selected].coin_type.clone();
                    app.explore_type(t);
                }
            } else if c == 'f' {
                return match app.active_key() {
                    Some(k) => HintRequest::Faucet(k.address.clone()),
                    None => HintRequest::Done,
                };
            } else if c == '/' {
                app.coins_filter = Some(String::new());
                app.coins_selected = 0;
                app.coins_offset = 0;
            }
        },
        _ => {},
    }
    HintRequest::Done
}

impl App {
    /// A key on the object list while its filter is open: the filter is
    /// edited or closed, the selection moves among the matching objects, and
    /// Enter explores the selected match; the selection is then kept on a
    /// match and scrolled into view.
    pub open spec fn objects_filter_key(&self, o: &App, key: Key) -> bool {
        let fl = o.spec_filtered_objects();
        let sel = o.objects_selected;
        let rows = o.content_visible_rows as nat;
        if key == Key::Enter && sel < fl.len() {
            let idx = fl[sel as int];
            &&& (App { objects_selected: idx, objects_offset: o.objects_offset, ..*self }).explored(
                &App { objects_selected: idx, ..*o },
                o.objects@[idx as int].object_id,
            )
            &&& self.objects_selected == clamp_selection(sel, self.spec_filtered_objects().len())
            &&& self.objects_offset == App::spec_scroll_into_view(
                self.objects_selected as nat,
                o.objects_offset as nat,
                rows,
            )
        } else {
            let (ps, po) = filter_pre_selection(sel, o.objects_offset, fl.len(), key);
            &&& filter_view(self.objects_filter) == filter_after(filter_view(o.objects_filter)->0, key)
            &&& self.objects_selected == clamp_selection(ps, self.spec_filtered_objects().len())
            &&& self.objects_offset == App::spec_scroll_into_view(self.objects_selected as nat, po as nat, rows)
            &&& *self == (App {
                objects_filter: self.objects_filter,
                objects_selected: self.objects_selected,
                objects_offset: self.objects_offset,
                ..*o
            })
        }
    }

    /// What the object list needs: a list position that can move and a
    /// scroll window that fits.
    pub open spec fn objects_key_ok(&self) -> bool {
        list_ok(self.objects_selected, self.objects_offset, self.content_visible_rows)
    }
}

/// Selection and offset kept on the matching rows and scrolled into view.
fn settle_objects(app: &mut App)
    requires
        old(app).objects_offset + old(app).content_visible_rows <= usize::MAX,
    ensures
        final(app).objects_selected == clamp_selection(
            old(app).objects_selected,
            old(app).spec_filtered_objects().len(),
        ),
        final(app).objects_offset == App::spec_scroll_into_view(
            final(app).objects_selected as nat,
            old(app).objects_offset as nat,
            old(app).content_visible_rows as nat,
        ),
        *final(app) == (App {
            objects_selected: final(app).objects_selected,
            objects_offset: final(app).objects_offset,
            ..*old(app)
        }),
{
    let after = app.filtered_objects();
    app.objects_selected = clamp_to(app.objects_selected, after.len());
    App::scroll_into_view(app.objects_selected, &mut app.objects_offset, app.content_visible_rows);
}

#[verifier::rlimit(50)]
fn objects_filter_key(app: &mut App, key: Key)
    requires
        old(app).objects_filter is Some,
        old(app).objects_key_ok(),
    ensures
        final(app).objects_filter_key(old(app), key),
{
    let filtered = app.filtered_objects();
    let sel = app.objects_selected;
    let n = app.objects.len();
    if key == Key::Enter && sel < filtered.len() {
        let idx = filtered[sel];
        proof {
            lemma_index_filters_in_range();
            assert(idx < n);
        }
        app.objects_selected = idx;
        app.activate_selected_object();
        app.objects_selected = sel;
        settle_objects(app);
        return ;
    }
    let (ps, po) = pre_selection(sel, app.objects_offset, filtered.len(), key);
    let q = match &app.objects_filter {
        Some(q) => edit_filter(q, key),
        None => None,
    };
    app.objects_filter = q;
    app.objects_selected = ps;
    app.objects_offset = po;
    settle_objects(app);
}

impl App {
    /// What a key does on the object list: with the filter open, see
    /// `objects_filter_key`; else move through the objects, explore the
    /// selected object or its type, or open the filter.
    #[verifier::opaque]
    pub open spec fn objects_key_handled(&self, o: &App, key: Key) -> bool {
        let sel = o.objects_selected;
        if o.objects_filter is Some {
            self.objects_filter_key(o, key)
        } else {
            match list_moved(sel, o.objects_offset, o.objects@.len(), o.content_visible_rows, key) {
                Some((s, f)) => *self == (App { objects_selected: s, objects_offset: f, ..*o }),
                None => if key == Key::Enter {
                    if sel < o.objects@.len() {
                        self.explored(o, o.objects@[sel as int].object_id)
                    } else {
                        *self == *o
                    }
                } else if key == Key::Char('t') {
                    if sel < o.objects@.len() {
                        self.type_explored(o, o.objects@[sel as int].object_type)
                    } else {
                        *self == *o
                    }
                } else if key == Key::Char('/') {
                    &&& self.objects_filter matches Some(q) && q@.len() == 0
                    &&& *self == (App {
                        objects_filter: self.objects_filter,
                        objects_selected: 0,
                        objects_offset: 0,
                        ..*o
                    })
                } else {
                    *self == *o
                },
            }
        }
    }
}

/// Keys on the object list.
pub fn handle_objects_key(app: &mut App, key: Key)
    requires
        old(app).objects_key_ok(),
    ensures
        final(app).objects_key_handled(old(app), key),
{
    proof {
        reveal(App::objects_key_handled);
    }
    if app.objects_filter.is_some() {
        objects_filter_key(app, key);
        return ;
    }
    match move_in_list(
        app.objects_selected,
        app.objects_offset,
        app.objects.len(),
        app.content_visible_rows,
        key,
    ) {
        Some((s, f)) => {
            app.objects_selected = s;
            app.objects_offset = f;
            return ;
        },
        None => {},
    }
    match key {
        Key::Enter => app.activate_selected_object(),
        Key::Char(c) => {
            if c == 't' {
                if app.objects_selected < app.objects.len() {
                    let t = app.objects[app.objects_selected].object_type.clone();
                    app.explore_type(t);
                }
            } else if c == '/' {
                app.objects_filter = Some(String::new());
                app.objects_selected = 0;
                app.objects_offset = 0;
            }
        },
        _ => {},
    }
}

impl App {
    /// A key on the transaction list while its filter is open: the filter is
    /// edited or closed, the selection moves among the matching transactions, and
    /// Enter explores the selected match; the selection is then kept on a
    /// match and scrolled into view.
    pub open spec fn transactions_filter_key(&self, o: &App, key: Key) -> bool {
        let fl = o.spec_filtered_transactions();
        let sel = o.transactions_selected;
        let rows = o.content_visible_rows as nat;
        if key == Key::Enter && sel < fl.len() {
            let idx = fl[sel as int];
            &&& (App { transactions_selected: idx, transactions_offset: o.transactions_offset, ..*self }).explored(
                &App { transactions_selected: idx, ..*o },
                o.transactions@[idx as int].digest,
            )
            &&& self.transactions_selected == clamp_selection(sel, self.spec_filtered_transactions().len())
            &&& self.transactions_offset == App::spec_scroll_into_view(
                self.transactions_selected as nat,
                o.transactions_offset as nat,
                rows,
            )
        } else {
            let (ps, po) = filter_pre_selection(sel, o.transactions_offset, fl.len(), key);
            &&& filter_view(self.transactions_filter) == filter_after(filter_view(o.transactions_filter)->0, key)
            &&& self.transactions_selected == clamp_selection(ps, self.spec_filtered_transactions().len())
            &&& self.transactions_offset == App::spec_scroll_into_view(self.transactions_selected as nat, po as nat, rows)
            &&& *self == (App {
                transactions_filter: self.transactions_filter,
                transactions_selected: self.transactions_selected,
                transactions_offset: self.transactions_offset,
                ..*o
            })
        }
    }

    /// What the transaction list needs: a list position that can move and a
    /// scroll window that fits.
    pub open spec fn transactions_key_ok(&self) -> bool {
        list_ok(self.transactions_selected, self.transactions_offset, self.content_visible_rows)
    }
}

/// Selection and offset kept on the matching rows and scrolled into view.
fn settle_transactions(app: &mut App)
    requires
        old(app).transactions_offset + old(app).content_visible_rows <= usize::MAX,
    ensures
        final(app).transactions_selected == clamp_selection(
            old(app).transactions_selected,
            old(app).spec_filtered_transactions().len(),
        ),
        final(app).transactions_offset == App::spec_scroll_into_view(
            final(app).transactions_selected as nat,
            old(app).transactions_offset as nat,
            old(app).content_visible_rows as nat,
        ),
        *final(app) == (App {
            transactions_selected: final(app).transactions_selected,
            transactions_offset: final(app).transactions_offset,
            ..*old(app)
        }),
{
    let after = app.filtered_transactions();
    app.transactions_selected = clamp_to(app.transactions_selected, after.len());
    App::scroll_into_view(app.transactions_selected, &mut app.transactions_offset, app.content_visible_rows);
}

#[verifier::rlimit(50)]
fn transactions_filter_key(app: &mut App, key: Key)
    requires
        old(app).transactions_filter is Some,
        old(app).transactions_key_ok(),
    ensures
        final(app).transactions_filter_key(old(app), key),
{
    let filtered = app.filtered_transactions();
    let sel = app.transactions_selected;
    let n = app.transactions.len();
    if key == Key::Enter && sel < filtered.len() {
        let idx = filtered[sel];
        proof {
            lemma_index_filters_in_range();
            assert(idx < n);
        }
        app.transactions_selected = idx;
        app.activate_selected_transaction();
        app.transactions_selected = sel;
        settle_transactions(app);
        return ;
    }
    let (ps, po) = pre_selection(sel, app.transactions_offset, filtered.len(), key);
    let q = match &app.transactions_filter {
        Some(q) => edit_filter(q, key),
        None => None,
    };
    app.transactions_filter = q;
    app.transactions_selected = ps;
    app.transactions_offset = po;
    settle_transactions(app);
}

impl App {
    /// What a key does on the transaction list: with the filter open, see
    /// `transactions_filter_key`; else move through the transactions,
    /// explore the selected digest, or open the filter.
    #[verifier::opaque]
    pub open spec fn transactions_key_handled(&self, o: &App, key: Key) -> bool {
        let sel = o.transactions_selected;
        if o.transactions_filter is Some {
            self.transactions_filter_key(o, key)
        } else {
            match list_moved(
                sel,
                o.transactions_offset,
                o.transactions@.len(),
                o.content_visible_rows,
                key,
            ) {
                Some((s, f)) => *self == (App {
                    transactions_selected: s,
                    transactions_offset: f,
                    ..*o
                }),
                None => if key == Key::Enter {
                    if sel < o.transactions@.len() {
                        self.explored(o, o.transactions@[sel as int].digest)
                    } else {
                        *self == *o
                    }
                } else if key == Key::Char('/') {
                    &&& self.transactions_filter matches Some(q) && q@.len() == 0
                    &&& *self == (App {
                        transactions_filter: self.transactions_filter,
                        transactions_selected: 0,
                        transactions_offset: 0,
                        ..*o
                    })
                } else {
                    *self == *o
                },
            }
        }
    }
}

/// Keys on the transaction list.
pub fn handle_transactions_key(app: &mut App, key: Key)
    requires
        old(app).transactions_key_ok(),
    ensures
        final(app).transactions_key_handled(old(app), key),
{
    proof {
        reveal(App::transactions_key_handled);
    }
    if app.transactions_filter.is_some() {
        transactions_filter_key(app, key);
        return ;
    }
    match move_in_list(
        app.transactions_selected,
        app.transactions_offset,
        app.transactions.len(),
        app.content_visible_rows,
        key,
    ) {
        Some((s, f)) => {
            app.transactions_selected = s;
            app.transactions_offset = f;
            return ;
        },
        None => {},
    }
    match key {
        Key::Enter => app.activate_selected_transaction(),
        Key::Char(c) => {
            if c == '/' {
                app.transactions_filter = Some(String::new());
                app.transactions_selected = 0;
                app.transactions_offset = 0;
            }
        },
        _ => {},
    }
}

// ── Transaction builder ───────────────────────────────────────────

/// Two command lists with the same commands, argument for argument.
pub open spec fn commands_eqv(a: Seq<PtbCommand>, b: Seq<PtbCommand>) -> bool {
    &&& a.len() == b.len()
    &&& forall|i: int| 0 <= i < a.len() ==> (#[trigger] a[i]).spec_eqv(&b[i])
}

fn copy_strings(v: &Vec<String>) -> (r: Vec<String>)
    ensures
        r@ == v@,
{
    let mut r: Vec<String> = Vec::new();
    for i in 0..v.len()
        invariant
            r@ == v@.take(i as int),
    {
        r.push(v[i].clone());
        assert(r@ =~= v@.take(i + 1));
    }
    assert(v@.take(v@.len() as int) =~= v@);
    r
}

fn copy_command(c: &PtbCommand) -> (r: PtbCommand)
    ensures
        r.spec_eqv(c),
{
    match c {
        PtbCommand::TransferIota { recipient, amount } => PtbCommand::TransferIota {
            recipient: recipient.clone(),
            amount: amount.clone(),
        },
        PtbCommand::TransferObjects { recipient, object_ids } => PtbCommand::TransferObjects {
            recipient: recipient.clone(),
            object_ids: copy_strings(object_ids),
        },
        PtbCommand::MoveCall { package, module, function, type_args, args } => PtbCommand::MoveCall {
            package: package.clone(),
            module: module.clone(),
            function: function.clone(),
            type_args: copy_strings(type_args),
            args: copy_strings(args),
        },
        PtbCommand::SplitCoins { coin, amounts } => PtbCommand::SplitCoins {
            coin: coin.clone(),
            amounts: copy_strings(amounts),
        },
        PtbCommand::MergeCoins { primary, sources } => PtbCommand::MergeCoins {
            primary: primary.clone(),
            sources: copy_strings(sources),
        },
        PtbCommand::Stake { amount, validator } => PtbCommand::Stake {
            amount: amount.clone(),
            validator: validator.clone(),
        },
        PtbCommand::Unstake { staked_iota_id } => PtbCommand::Unstake {
            staked_iota_id: staked_iota_id.clone(),
        },
    }
}

fn copy_commands(v: &Vec<PtbCommand>) -> (r: Vec<PtbCommand>)
    ensures
        commands_eqv(r@, v@),
{
    let mut r: Vec<PtbCommand> = Vec::new();
    for i in 0..v.len()
        invariant
            r@.len() == i,
            forall|k: int| 0 <= k < i ==> (#[trigger] r@[k]).spec_eqv(&v@[k]),
    {
        r.push(copy_command(&v[i]));
    }
    r
}

impl App {
    /// `trigger_dry_run` on `m`: when the commands changed since the last
    /// dry run and there are keys and commands, a new dry run is asked for.
    pub open spec fn dry_run_triggered(&self, m: &App) -> bool {
        if !m.tx.dry_run_dirty || m.keys@.len() == 0 || m.tx.commands@.len() == 0 {
            *self == *m
        } else {
            &&& self.outbox@.len() == m.outbox@.len() + 1
            &&& self.outbox@.take(m.outbox@.len() as int) == m.outbox@
            &&& self.outbox@.last() matches WalletCmd::DryRun { sender_idx, commands }
                && sender_idx == m.tx.sender && commands_eqv(commands@, m.tx.commands@)
            &&& *self == (App {
                tx: TxBuilderState {
                    dry_run: None,
                    dry_running: true,
                    dry_run_dirty: false,
                    ..m.tx
                },
                outbox: self.outbox,
                ..*m
            })
        }
    }

    /// `submit_transaction`: with keys and commands, and a balance that
    /// covers the transfers and the gas budget, the transaction is sent for
    /// execution with the budget typed (ten million when it does not parse).
    pub open spec fn transaction_submitted(&self, o: &App) -> bool {
        if o.keys@.len() == 0 || o.tx.commands@.len() == 0 || transfer_total(o.tx.commands@)
            + o.spec_gas_budget() > o.total_balance_iota {
            *self == *o
        } else {
            &&& self.outbox@.len() == o.outbox@.len() + 1
            &&& self.outbox@.take(o.outbox@.len() as int) == o.outbox@
            &&& self.outbox@.last() matches WalletCmd::ExecutePtb { sender_idx, commands, gas_budget }
                && sender_idx == o.tx.sender && commands_eqv(commands@, o.tx.commands@)
                && gas_budget == o.spec_gas_budget()
            &&& *self == (App { outbox: self.outbox, ..*o })
        }
    }
}

/// Ask for a dry run of the builder's commands when they changed.
pub fn trigger_dry_run(app: &mut App)
    ensures
        final(app).dry_run_triggered(old(app)),
{
    if !app.tx.dry_run_dirty || app.keys.len() == 0 || app.tx.commands.len() == 0 {
        return ;
    }
    app.tx.dry_run = None;
    app.tx.dry_running = true;
    app.tx.dry_run_dirty = false;
    let commands = copy_commands(&app.tx.commands);
    let sender_idx = app.tx.sender;
    app.send_cmd(WalletCmd::DryRun { sender_idx, commands });
    assert(app.outbox@.take(old(app).outbox@.len() as int) =~= old(app).outbox@);
}

/// Send the built transaction for execution, if the balance covers it.
pub fn submit_transaction(app: &mut App)
    requires
        transfer_total(old(app).tx.commands@) <= u64::MAX,
    ensures
        final(app).transaction_submitted(old(app)),
{
    if app.keys.len() == 0 || app.tx.commands.len() == 0 {
        return ;
    }
    if app.validate_balance().is_err() {
        return ;
    }
    let gas_budget: u64 = match crate::formatting::parse_u64(app.tx.gas_budget.as_str()) {
        Some(g) => g,
        None => 10_000_000,
    };
    let commands = copy_commands(&app.tx.commands);
    let sender_idx = app.tx.sender;
    app.send_cmd(WalletCmd::ExecutePtb { sender_idx, commands, gas_budget });
    assert(app.outbox@.take(old(app).outbox@.len() as int) =~= old(app).outbox@);
}

impl App {
    /// The builder changed as `t` says, nothing else.
    pub open spec fn tx_became(&self, o: &App, t: TxBuilderState) -> bool {
        *self == (App { tx: t, ..*o })
    }

    /// A key on the sender step: pick the sender among the keys (the dry
    /// run goes stale), or go on to the commands.
    #[verifier::opaque]
    pub open spec fn sender_step_key(&self, o: &App, key: Key) -> bool {
        let t = o.tx;
        if key == Key::Up && t.sender > 0 {
            self.tx_became(o, TxBuilderState { sender: (t.sender - 1) as usize, dry_run_dirty: true, ..t })
        } else if key == Key::Down && t.sender + 1 < o.keys@.len() {
            self.tx_became(o, TxBuilderState { sender: (t.sender + 1) as usize, dry_run_dirty: true, ..t })
        } else if key == Key::Enter || key == Key::Right {
            self.tx_became(o, TxBuilderState { step: TxBuilderStep::EditCommands, ..t })
        } else {
            *self == *o
        }
    }

    /// A key on the commands step: back, on to the gas, add a command,
    /// move through the commands or delete the selected one.
    #[verifier::opaque]
    pub open spec fn commands_step_key(&self, o: &App, key: Key) -> bool {
        let t = o.tx;
        if key == Key::Left {
            self.tx_became(o, TxBuilderState { step: TxBuilderStep::SelectSender, ..t })
        } else if key == Key::Right {
            self.tx_became(o, TxBuilderState { step: TxBuilderStep::SetGas, ..t })
        } else if key == Key::Char('a') {
            self.popup_opened(o, Popup::AddCommand)
        } else if key == Key::Up && t.cmd_selected > 0 {
            self.tx_became(o, TxBuilderState { cmd_selected: (t.cmd_selected - 1) as usize, ..t })
        } else if key == Key::Down && t.cmd_selected + 1 < t.commands@.len() {
            self.tx_became(o, TxBuilderState { cmd_selected: (t.cmd_selected + 1) as usize, ..t })
        } else if key == Key::Char('d') || key == Key::Delete {
            self.tx_delete_clicked(o)
        } else {
            *self == *o
        }
    }

    /// A key on the gas step: while editing, Enter takes the typed budget
    /// and Esc drops it; else back, on to the review (with a dry run when
    /// needed), or edit the budget.
    #[verifier::opaque]
    pub open spec fn gas_step_key(&self, o: &App, key: Key) -> bool {
        let t = o.tx;
        if o.input_mode == InputMode::Editing {
            if key == Key::Enter {
                &&& self.input_buffer@.len() == 0
                &&& *self == (App {
                    input_mode: InputMode::Normal,
                    input_buffer: self.input_buffer,
                    input_cursor: 0,
                    tx: TxBuilderState { gas_budget: o.input_buffer, gas_edited: true, ..t },
                    ..*o
                })
            } else if key == Key::Esc {
                &&& self.input_buffer@.len() == 0
                &&& *self == (App {
                    input_mode: InputMode::Normal,
                    input_buffer: self.input_buffer,
                    input_cursor: 0,
                    ..*o
                })
            } else {
                self.edited_by(o, key)
            }
        } else if key == Key::Left {
            self.tx_became(o, TxBuilderState { step: TxBuilderStep::EditCommands, ..t })
        } else if key == Key::Right {
            self.dry_run_triggered(&App { tx: TxBuilderState { step: TxBuilderStep::Review, ..t }, ..*o })
        } else if key == Key::Enter || key == Key::Char('e') {
            &&& self.input_buffer@ == t.gas_budget@
            &&& self.input_cursor == byte_len(t.gas_budget@)
            &&& *self == (App {
                input_mode: InputMode::Editing,
                input_buffer: self.input_buffer,
                input_cursor: self.input_cursor,
                ..*o
            })
        } else {
            *self == *o
        }
    }

    /// What a key does in the transaction builder: `c` (when not typing)
    /// clears it or asks to; else the key goes to the step on show, the
    /// review step going back or submitting.
    #[verifier::opaque]
    pub open spec fn tx_key_handled(&self, o: &App, key: Key) -> bool {
        if o.input_mode != InputMode::Editing && key == Key::Char('c') {
            self.tx_clear_clicked(o)
        } else {
            match o.tx.step {
                TxBuilderStep::SelectSender => self.sender_step_key(o, key),
                TxBuilderStep::EditCommands => self.commands_step_key(o, key),
                TxBuilderStep::SetGas => self.gas_step_key(o, key),
                TxBuilderStep::Review => if key == Key::Left {
                    self.tx_became(o, TxBuilderState { step: TxBuilderStep::SetGas, ..o.tx })
                } else if key == Key::Enter {
                    self.transaction_submitted(o)
                } else {
                    *self == *o
                },
            }
        }
    }

    /// What the builder needs for `key`: an input line in order while
    /// typing, a budget the input line can take, a selected command that
    /// exists, and transfer amounts whose total fits in `u64`.
    pub open spec fn tx_key_ok(&self, key: Key) -> bool {
        let t = self.tx;
        let editing = self.input_mode == InputMode::Editing;
        &&& t.step == TxBuilderStep::SetGas && editing && key != Key::Enter && key != Key::Esc
            ==> self.input_ok()
        &&& t.step == TxBuilderStep::SetGas && !editing ==> byte_len(t.gas_budget@) + 4 <= usize::MAX
        &&& t.commands@.len() > 0 ==> t.cmd_selected < t.commands@.len()
        &&& t.step == TxBuilderStep::Review ==> transfer_total(t.commands@) <= u64::MAX
    }
}

fn step_to(app: &mut App, step: TxBuilderStep)
    ensures
        final(app).tx_became(old(app), TxBuilderState { step, ..old(app).tx }),
{
    app.tx.step = step;
}

fn sender_to(app: &mut App, sender: usize)
    ensures
        final(app).tx_became(old(app), TxBuilderState { sender, dry_run_dirty: true, ..old(app).tx }),
{
    app.tx.sender = sender;
    app.tx.dry_run_dirty = true;
}

fn command_selected_to(app: &mut App, cmd_selected: usize)
    ensures
        final(app).tx_became(old(app), TxBuilderState { cmd_selected, ..old(app).tx }),
{
    app.tx.cmd_selected = cmd_selected;
}

fn take_typed_gas(app: &mut App)
    ensures
        final(app).input_buffer@.len() == 0,
        *final(app) == (App {
            input_mode: InputMode::Normal,
            input_buffer: final(app).input_buffer,
            input_cursor: 0,
            tx: TxBuilderState { gas_budget: old(app).input_buffer, gas_edited: true, ..old(app).tx },
            ..*old(app)
        }),
{
    let typed = app.stop_input();
    app.tx.gas_budget = typed;
    app.tx.gas_edited = true;
}

fn sender_step_key(app: &mut App, key: Key)
    ensures
        final(app).sender_step_key(old(app), key),
{
    proof {
        reveal(App::sender_step_key);
    }
    if key == Key::Up && app.tx.sender > 0 {
        sender_to(app, app.tx.sender - 1);
        return ;
    }
    if key == Key::Down && app.keys.len() > 0 && app.tx.sender < app.keys.len() - 1 {
        sender_to(app, app.tx.sender + 1);
        return ;
    }
    if key == Key::Enter || key == Key::Right {
        step_to(app, TxBuilderStep::EditCommands);
    }
}

fn commands_step_key(app: &mut App, key: Key)
    requires
        old(app).tx.commands@.len() > 0 ==> old(app).tx.cmd_selected < old(app).tx.commands@.len(),
    ensures
        final(app).commands_step_key(old(app), key),
{
    proof {
        reveal(App::commands_step_key);
    }
    let n = app.tx.commands.len();
    if key == Key::Left {
        step_to(app, TxBuilderStep::SelectSender);
        return ;
    }
    if key == Key::Right {
        step_to(app, TxBuilderStep::SetGas);
        return ;
    }
    if key == Key::Char('a') {
        app.open_popup(Popup::AddCommand);
        return ;
    }
    if key == Key::Up && app.tx.cmd_selected > 0 {
        command_selected_to(app, app.tx.cmd_selected - 1);
        return ;
    }
    if key == Key::Down && n > 0 && app.tx.cmd_selected < n - 1 {
        command_selected_to(app, app.tx.cmd_selected + 1);
        return ;
    }
    if key == Key::Char('d') || key == Key::Delete {
        click_tx_delete(app);
    }
}

fn gas_step_key(app: &mut App, key: Key)
    requires
        old(app).input_mode == InputMode::Editing && key != Key::Enter && key != Key::Esc
            ==> old(app).input_ok(),
        old(app).input_mode != InputMode::Editing ==> byte_len(old(app).tx.gas_budget@) + 4
            <= usize::MAX,
    ensures
        final(app).gas_step_key(old(app), key),
{
    proof {
        reveal(App::gas_step_key);
    }
    if app.input_mode == InputMode::Editing {
        if key == Key::Enter {
            take_typed_gas(app);
            return ;
        }
        if key == Key::Esc {
            let _ = app.stop_input();
            return ;
        }
        handle_input_key(app, key);
        return ;
    }
    if key == Key::Left {
        step_to(app, TxBuilderStep::EditCommands);
        return ;
    }
    if key == Key::Right {
        step_to(app, TxBuilderStep::Review);
        trigger_dry_run(app);
        return ;
    }
    if key == Key::Enter || key == Key::Char('e') {
        let budget = app.tx.gas_budget.clone();
        app.start_input(budget.as_str());
    }
}

/// Keys in the transaction builder.
pub fn handle_tx_key(app: &mut App, key: Key)
    requires
        old(app).tx_key_ok(key),
    ensures
        final(app).tx_key_handled(old(app), key),
{
    proof {
        reveal(App::tx_key_handled);
    }
    if app.input_mode != InputMode::Editing && key == Key::Char('c') {
        click_tx_clear(app);
        return ;
    }
    match app.tx.step {
        TxBuilderStep::SelectSender => sender_step_key(app, key),
        TxBuilderStep::EditCommands => commands_step_key(app, key),
        TxBuilderStep::SetGas => gas_step_key(app, key),
        TxBuilderStep::Review => {
            if key == Key::Left {
                step_to(app, TxBuilderStep::SetGas);
            } else if key == Key::Enter {
                submit_transaction(app);
            }
        },
    }
}

/// Typing a character into an open, non-empty filter and erasing it with
/// Backspace gives the filter back.
pub proof fn lemma_filter_type_then_erase(q: Seq<char>, c: char)
    requires
        q.len() >= 1,
    ensures
        filter_after(q, Key::Char(c)) == Some(q.push(c)),
        filter_after(q.push(c), Key::Backspace) == Some(q),
{
    assert(q.push(c).drop_last() =~= q);
}

} // verus!
