//! Keyboard dispatch: a key goes to the open popup, else the context menu,
//! the open section, the explorer overlay, the transaction builder, the
//! global shortcuts, and last the box grid.

use vstd::prelude::*;
use crate::context_keys::handle_context_menu_key;
use crate::explorer_keys::handle_explorer_key;
use crate::grid_keys::{Layout, handle_grid_key};
use crate::hints::{HintRequest, handle_hint_click};
use crate::keys::{Key, handle_input_key};
use crate::popup_keys::handle_popup_key;
use crate::screen_keys::{
    handle_coins_key, handle_objects_key, handle_packages_key, handle_transactions_key,
    handle_tx_key,
};
use crate::state::App;
use crate::types::{ContextMenu, InputMode, Popup, Screen, Section, actions_for, spec_actions_for};

verus! {

/// What a key leaves to the program around the library.
pub enum KeyRequest {
    /// Nothing.
    Nothing,
    /// Copy the selected item to the clipboard.
    Copy,
    /// Export the list on screen to a CSV file.
    Export,
    /// Ask the faucet for coins for this address, once it parses as one.
    Faucet(String),
    /// Read the error log into the app (its popup is open).
    LoadErrorLog,
}

/// What a key leaves to do: a request, and the theme to save when the
/// secret sequence toggled it.
pub struct KeyOutcome {
    pub request: KeyRequest,
    pub save_theme: Option<bool>,
}

/// A hint's leftover work as a key request.
pub open spec fn request_of(r: HintRequest) -> KeyRequest {
    match r {
        HintRequest::Done => KeyRequest::Nothing,
        HintRequest::Copy => KeyRequest::Copy,
        HintRequest::Export => KeyRequest::Export,
        HintRequest::Faucet(a) => KeyRequest::Faucet(a),
    }
}

pub(crate) fn to_request(r: HintRequest) -> (k: KeyRequest)
    ensures
        k == request_of(r),
{
    match r {
        HintRequest::Done => KeyRequest::Nothing,
        HintRequest::Copy => KeyRequest::Copy,
        HintRequest::Export => KeyRequest::Export,
        HintRequest::Faucet(a) => KeyRequest::Faucet(a),
    }
}

// ── The secret sequence ───────────────────────────────────────────

/// The code of a key in the secret sequence: arrows by their key codes,
/// characters by their low byte.
pub open spec fn seq_code(key: Key) -> Option<u8> {
    match key {
        Key::Up => Some(38u8),
        Key::Down => Some(40u8),
        Key::Left => Some(37u8),
        Key::Right => Some(39u8),
        Key::Char(c) => Some(((c as u32) % 256) as u8),
        _ => None,
    }
}

/// The secret sequence: up, up, down, down, left, right, left, right, b, a.
pub open spec fn seq_at(i: nat) -> u8 {
    if i == 0 || i == 1 {
        38
    } else if i == 2 || i == 3 {
        40
    } else if i == 4 || i == 6 {
        37
    } else if i == 5 || i == 7 {
        39
    } else if i == 8 {
        98
    } else {
        97
    }
}

/// Progress through the sequence and theme after `key`: a matching key
/// advances, a wrong one starts over (at one when it begins the sequence);
/// completing it toggles the theme (the third value says so).
pub open spec fn seq_step(idx: usize, phase: u32, key: Key) -> (usize, u32, bool) {
    match seq_code(key) {
        None => (idx, phase, false),
        Some(c) => if c == seq_at(idx as nat) {
            if idx + 1 == 10 {
                (
                    0,
                    if phase > 0 {
                        0
                    } else {
                        1
                    },
                    true,
                )
            } else {
                ((idx + 1) as usize, phase, false)
            }
        } else {
            (
                if c == 38 {
                    1
                } else {
                    0
                },
                phase,
                false,
            )
        },
    }
}

fn code_of(key: Key) -> (r: Option<u8>)
    ensures
        r == seq_code(key),
{
    match key {
        Key::Up => Some(38),
        Key::Down => Some(40),
        Key::Left => Some(37),
        Key::Right => Some(39),
        Key::Char(c) => Some(((c as u32) % 256) as u8),
        _ => None,
    }
}

fn code_at(i: usize) -> (r: u8)
    ensures
        r == seq_at(i as nat),
{
    if i == 0 || i == 1 {
        38
    } else if i == 2 || i == 3 {
        40
    } else if i == 4 || i == 6 {
        37
    } else if i == 5 || i == 7 {
        39
    } else if i == 8 {
        98
    } else {
        97
    }
}

fn sequence_step(idx: usize, phase: u32, key: Key) -> (r: (usize, u32, bool))
    requires
        idx < 10,
    ensures
        r == seq_step(idx, phase, key),
{
    match code_of(key) {
        None => (idx, phase, false),
        Some(c) => {
            if c == code_at(idx) {
                if idx + 1 == 10 {
                    (
                        0,
                        if phase > 0 {
                            0
                        } else {
                            1
                        },
                        true,
                    )
                } else {
                    (idx + 1, phase, false)
                }
            } else {
                (
                    if c == 38 {
                        1
                    } else {
                        0
                    },
                    phase,
                    false,
                )
            }
        },
    }
}

fn track_sequence(app: &mut App, key: Key) -> (toggled: bool)
    requires
        old(app).nav_idx < 10,
    ensures
        (final(app).nav_idx, final(app).color_phase, toggled) == seq_step(
            old(app).nav_idx,
            old(app).color_phase,
            key,
        ),
        *final(app) == (App {
            nav_idx: final(app).nav_idx,
            color_phase: final(app).color_phase,
            ..*old(app)
        }),
{
    let (idx, phase, toggled) = sequence_step(app.nav_idx, app.color_phase, key);
    app.nav_idx = idx;
    app.color_phase = phase;
    toggled
}

// ── Overlays ──────────────────────────────────────────────────────

/// A global shortcut: quit, help, networks or the error log.
pub open spec fn is_shortcut(key: Key) -> bool {
    key == Key::Char('q') || key == Key::Char('?') || key == Key::Char('n') || key == Key::Char('E')
}

impl App {
    /// A global shortcut was taken: its popup opened, and for the error
    /// log the log is to be read.
    pub open spec fn shortcut_taken(&self, o: &App, key: Key, r: KeyRequest) -> bool {
        let p = if key == Key::Char('q') {
            Popup::ConfirmQuit
        } else if key == Key::Char('?') {
            Popup::Help
        } else if key == Key::Char('n') {
            Popup::SwitchNetwork
        } else {
            Popup::ErrorLog
        };
        &&& r == if key == Key::Char('E') {
            KeyRequest::LoadErrorLog
        } else {
            KeyRequest::Nothing
        }
        &&& self.popup_opened(o, p)
    }
}

fn take_shortcut(app: &mut App, key: Key) -> (r: KeyRequest)
    requires
        is_shortcut(key),
    ensures
        final(app).shortcut_taken(old(app), key, r),
{
    if key == Key::Char('q') {
        app.open_popup(Popup::ConfirmQuit);
        KeyRequest::Nothing
    } else if key == Key::Char('?') {
        app.open_popup(Popup::Help);
        KeyRequest::Nothing
    } else if key == Key::Char('n') {
        app.open_popup(Popup::SwitchNetwork);
        KeyRequest::Nothing
    } else {
        app.open_popup(Popup::ErrorLog);
        KeyRequest::LoadErrorLog
    }
}

/// The list of the open section has a filter open.
pub open spec fn has_active_filter(app: &App, s: Section) -> bool {
    match s {
        Section::Coins => app.coins_filter is Some,
        Section::Objects => app.objects_filter is Some,
        Section::Transactions => app.transactions_filter is Some,
        _ => false,
    }
}

fn active_filter(app: &App, s: Section) -> (b: bool)
    ensures
        b == has_active_filter(app, s),
{
    match s {
        Section::Coins => app.coins_filter.is_some(),
        Section::Objects => app.objects_filter.is_some(),
        Section::Transactions => app.transactions_filter.is_some(),
        _ => false,
    }
}

impl App {
    /// A key in an open section: Esc closes it (unless typing or filtering),
    /// the global shortcuts work, `/` opens its context menu mid-content;
    /// else the screen becomes the section's and its list handles the key
    /// (typing goes to the input line; the stakes list takes no keys).
    #[verifier::opaque]
    pub open spec fn section_key_handled(
        &self,
        o: &App,
        key: Key,
        s: Section,
        layout: &Layout,
        r: KeyRequest,
    ) -> bool {
        let editing = o.input_mode == InputMode::Editing;
        if key == Key::Esc && !editing && !has_active_filter(o, s) {
            r == KeyRequest::Nothing && *self == (App { section_open: None, ..*o })
        } else if !editing && is_shortcut(key) {
            self.shortcut_taken(o, key, r)
        } else if key == Key::Char('/') && !editing {
            let acts = spec_actions_for(s, o.exploring is None);
            let c = layout.content;
            &&& r == KeyRequest::Nothing
            &&& if acts.len() == 0 {
                *self == *o
            } else {
                &&& self.context_menu matches Some(m) && m.section == s && m.actions@ == acts
                    && m.selected == 0 && m.anchor_row == c.y + c.height / 2 && m.anchor_col == c.x
                    + c.width / 2
                &&& *self == (App { context_menu: self.context_menu, ..*o })
            }
        } else {
            let m = App { screen: s.spec_to_screen(), ..*o };
            if editing {
                r == KeyRequest::Nothing && self.edited_by(&m, key)
            } else {
                match s {
                    Section::Coins => exists|h: HintRequest|
                        r == request_of(h) && #[trigger] self.coins_key_handled(&m, key, h),
                    Section::Objects => r == KeyRequest::Nothing && self.objects_key_handled(&m, key),
                    Section::Transactions => r == KeyRequest::Nothing && self.transactions_key_handled(
                        &m,
                        key,
                    ),
                    Section::Packages => r == KeyRequest::Nothing && self.packages_key_handled(&m, key),
                    Section::Staking => r == KeyRequest::Nothing && *self == m,
                }
            }
        }
    }

    /// What an open section needs: a content area whose middle is a cell,
    /// an input line in order while typing, and lists that can move.
    pub open spec fn section_key_ok(&self, s: Section, layout: &Layout) -> bool {
        let c = layout.content;
        &&& c.y + c.height / 2 <= u16::MAX
        &&& c.x + c.width / 2 <= u16::MAX
        &&& self.input_mode == InputMode::Editing ==> self.input_ok()
        &&& self.coins_key_ok()
        &&& self.objects_key_ok()
        &&& self.transactions_key_ok()
        &&& crate::screen_keys::list_ok(
            self.packages_selected,
            self.packages_offset,
            self.content_visible_rows,
        )
    }
}

fn section_context_menu(app: &mut App, s: Section, layout: &Layout)
    requires
        layout.content.y + layout.content.height / 2 <= u16::MAX,
        layout.content.x + layout.content.width / 2 <= u16::MAX,
    ensures
        ({
            let acts = spec_actions_for(s, old(app).exploring is None);
            let c = layout.content;
            if acts.len() == 0 {
                *final(app) == *old(app)
            } else {
                &&& final(app).context_menu matches Some(m) && m.section == s && m.actions@ == acts
                    && m.selected == 0 && m.anchor_row == c.y + c.height / 2 && m.anchor_col == c.x
                    + c.width / 2
                &&& *final(app) == (App { context_menu: final(app).context_menu, ..*old(app) })
            }
        }),
{
    let actions = actions_for(s, app.exploring.is_none());
    if actions.len() > 0 {
        let c = layout.content;
        app.context_menu = Some(
            ContextMenu {
                section: s,
                actions,
                selected: 0,
                anchor_row: c.y + c.height / 2,
                anchor_col: c.x + c.width / 2,
            },
        );
    }
}

/// Keys in an open section.
#[verifier::rlimit(60)]
pub fn handle_section_overlay_key(app: &mut App, key: Key, s: Section, layout: &Layout) -> (r: KeyRequest)
    requires
        old(app).section_key_ok(s, layout),
    ensures
        final(app).section_key_handled(old(app), key, s, layout, r),
{
    proof {
        reveal(App::section_key_handled);
    }
    let editing = app.input_mode == InputMode::Editing;
    if key == Key::Esc && !editing && !active_filter(app, s) {
        app.section_open = None;
        return KeyRequest::Nothing;
    }
    if !editing && (key == Key::Char('q') || key == Key::Char('?') || key == Key::Char('n') || key
        == Key::Char('E')) {
        return take_shortcut(app, key);
    }
    if key == Key::Char('/') && !editing {
        section_context_menu(app, s, layout);
        return KeyRequest::Nothing;
    }
    app.screen = s.to_screen();
    if editing {
        handle_input_key(app, key);
        return KeyRequest::Nothing;
    }
    match s {
        Section::Coins => {
            let h = handle_coins_key(app, key);
            let r = to_request(h);
            assert(app.coins_key_handled(&App { screen: s.spec_to_screen(), ..*old(app) }, key, h));
            r
        },
        Section::Objects => {
            handle_objects_key(app, key);
            KeyRequest::Nothing
        },
        Section::Transactions => {
            handle_transactions_key(app, key);
            KeyRequest::Nothing
        },
        Section::Packages => {
            handle_packages_key(app, key);
            KeyRequest::Nothing
        },
        Section::Staking => KeyRequest::Nothing,
    }
}

impl App {
    /// A key in the transaction builder overlay: Esc (when not typing)
    /// closes an empty builder or asks to clear it; else the builder
    /// handles the key, its screen on show.
    #[verifier::opaque]
    pub open spec fn tx_overlay_key_handled(&self, o: &App, key: Key) -> bool {
        let m = App { screen: Screen::TxBuilder, ..*o };
        if key == Key::Esc && o.input_mode != InputMode::Editing {
            if o.tx.commands@.len() == 0 {
                *self == (App { tx_builder_open: false, ..m })
            } else {
                self.popup_opened(&m, Popup::ConfirmClearTx)
            }
        } else {
            self.tx_key_handled(&m, key)
        }
    }

    /// A key in the explorer overlay: the global shortcuts work and Esc
    /// (when not typing) leaves it, clearing the search bar and fetching
    /// everything again; else the explorer handles the key.
    #[verifier::opaque]
    pub open spec fn explorer_overlay_key_handled(&self, o: &App, key: Key, r: KeyRequest) -> bool {
        let editing = o.input_mode == InputMode::Editing;
        if !editing && is_shortcut(key) {
            self.shortcut_taken(o, key, r)
        } else if !editing && key == Key::Esc {
            &&& r == KeyRequest::Nothing
            &&& self.search_buffer@.len() == 0
            &&& self.refreshed(&App { exploring: None, search_buffer: self.search_buffer, ..*o })
        } else {
            r == KeyRequest::Nothing && self.explorer_key_handled(
                &App { screen: Screen::Explorer, ..*o },
                key,
            )
        }
    }
}

/// Keys in the transaction builder overlay.
pub fn handle_tx_builder_overlay_key(app: &mut App, key: Key)
    requires
        old(app).tx_key_ok(key),
    ensures
        final(app).tx_overlay_key_handled(old(app), key),
{
    proof {
        reveal(App::tx_overlay_key_handled);
    }
    app.screen = Screen::TxBuilder;
    if key == Key::Esc && app.input_mode != InputMode::Editing {
        if app.tx.commands.len() == 0 {
            app.tx_builder_open = false;
        } else {
            app.open_popup(Popup::ConfirmClearTx);
        }
        return ;
    }
    handle_tx_key(app, key);
}

fn leave_explorer(app: &mut App)
    ensures
        final(app).search_buffer@.len() == 0,
        final(app).refreshed(&App { exploring: None, search_buffer: final(app).search_buffer, ..*old(app) }),
{
    app.exploring = None;
    app.search_buffer = String::new();
    let ghost mid = *app;
    app.request_refresh();
    proof {
        reveal(App::refreshed);
    }
}

/// Keys in the explorer overlay.
pub fn handle_explorer_overlay_key(app: &mut App, key: Key) -> (r: KeyRequest)
    requires
        old(app).explorer_key_ok(key),
    ensures
        final(app).explorer_overlay_key_handled(old(app), key, r),
{
    proof {
        reveal(App::explorer_overlay_key_handled);
    }
    let editing = app.input_mode == InputMode::Editing;
    if !editing && (key == Key::Char('q') || key == Key::Char('?') || key == Key::Char('n') || key
        == Key::Char('E')) {
        return take_shortcut(app, key);
    }
    if !editing && key == Key::Esc {
        leave_explorer(app);
        return KeyRequest::Nothing;
    }
    app.screen = Screen::Explorer;
    handle_explorer_key(app, key);
    KeyRequest::Nothing
}

impl App {
    /// A key given to the layers in turn: the open popup (the action that
    /// its actions menu picks is run as a click on its hint), the context menu, the open section, the
    /// explorer overlay, the builder overlay, the global shortcuts (`r`
    /// refreshes) unless the search bar has the focus, and the grid.
    #[verifier::opaque]
    pub open spec fn layers_handled(
        &self,
        o: &App,
        key: Key,
        ctrl: bool,
        layout: &Layout,
        r: KeyRequest,
    ) -> bool {
        if o.popup is Some {
            exists|mid: App, h: Option<&'static str>|
                #[trigger] mid.popup_key_handled(o, key, h) && match h {
                    Some(x) => exists|hr: HintRequest|
                        r == request_of(hr) && #[trigger] self.hint_clicked(&mid, x@, hr),
                    None => r == KeyRequest::Nothing && *self == mid,
                }
        } else if o.context_menu is Some {
            exists|h: HintRequest| r == request_of(h) && #[trigger] self.context_key_handled(o, key, h)
        } else if o.section_open is Some {
            self.section_key_handled(o, key, o.section_open->0, layout, r)
        } else if o.exploring is Some {
            self.explorer_overlay_key_handled(o, key, r)
        } else if o.tx_builder_open {
            r == KeyRequest::Nothing && self.tx_overlay_key_handled(o, key)
        } else if !o.search_focused && key == Key::Char('r') {
            r == KeyRequest::Nothing && self.refreshed(o)
        } else if !o.search_focused && is_shortcut(key) {
            self.shortcut_taken(o, key, r)
        } else {
            exists|h: HintRequest|
                r == request_of(h) && #[trigger] self.grid_key_handled(o, key, ctrl, layout, h)
        }
    }

    /// What a key did: Ctrl+C stops the program; else the secret sequence
    /// is tracked (completing it toggles the theme, to be saved) and the
    /// layers handle the key.
    #[verifier::opaque]
    pub open spec fn key_handled(
        &self,
        o: &App,
        key: Key,
        ctrl: bool,
        layout: &Layout,
        out: KeyOutcome,
    ) -> bool {
        if ctrl && key == Key::Char('c') {
            &&& out.request == KeyRequest::Nothing
            &&& out.save_theme is None
            &&& *self == (App { running: false, ..*o })
        } else {
            let (idx, phase, toggled) = seq_step(o.nav_idx, o.color_phase, key);
            &&& out.save_theme == if toggled {
                Some(phase > 0)
            } else {
                None
            }
            &&& self.layers_handled(
                &App { nav_idx: idx, color_phase: phase, ..*o },
                key,
                ctrl,
                layout,
                out.request,
            )
        }
    }

    /// What the layer that takes the key needs.
    pub open spec fn layers_ok(&self, key: Key, layout: &Layout) -> bool {
        if self.popup is Some {
            &&& self.popup_keys_ok()
            &&& self.popup == Some(Popup::ActionsMenu) ==> self.hints_ok()
        } else if self.context_menu is Some {
            self.context_key_ok()
        } else if self.section_open is Some {
            self.section_key_ok(self.section_open->0, layout)
        } else if self.exploring is Some {
            self.explorer_key_ok(key)
        } else if self.tx_builder_open {
            self.tx_key_ok(key)
        } else {
            self.grid_key_ok(layout)
        }
    }

    /// What a key needs from the state it finds: the sequence tracker in
    /// range, and what the layer that takes the key needs.
    pub open spec fn key_ok(&self, key: Key, layout: &Layout) -> bool {
        &&& self.nav_idx < 10
        &&& self.layers_ok(key, layout)
    }
}

/// An action comes out of a popup only from the actions menu, which then
/// just closes.
proof fn lemma_menu_hint_frame(mid: App, o: App, key: Key, h: &'static str)
    requires
        mid.popup_key_handled(&o, key, Some(h)),
    ensures
        o.popup == Some(Popup::ActionsMenu),
        mid == (App { popup: None, ..o }),
{
    reveal(App::popup_key_handled);
    reveal(App::menu_key);
}

fn handle_layers(app: &mut App, key: Key, ctrl: bool, layout: &Layout) -> (r: KeyRequest)
    requires
        old(app).layers_ok(key, layout),
    ensures
        final(app).layers_handled(old(app), key, ctrl, layout, r),
{
    proof {
        reveal(App::layers_handled);
    }
    if app.popup.is_some() {
        let h = handle_popup_key(app, key);
        let ghost mid = *app;
        assert(mid.popup_key_handled(old(app), key, h));
        match h {
            Some(x) => {
                proof {
                    lemma_menu_hint_frame(mid, *old(app), key, x);
                }
                let hr = handle_hint_click(app, x);
                assert(app.hint_clicked(&mid, x@, hr));
                return to_request(hr);
            },
            None => {
                return KeyRequest::Nothing;
            },
        }
    }
    if app.context_menu.is_some() {
        let h = handle_context_menu_key(app, key);
        assert(app.context_key_handled(old(app), key, h));
        return to_request(h);
    }
    match app.section_open {
        Some(s) => {
            return handle_section_overlay_key(app, key, s, layout);
        },
        None => {},
    }
    if app.exploring.is_some() {
        return handle_explorer_overlay_key(app, key);
    }
    if app.tx_builder_open {
        handle_tx_builder_overlay_key(app, key);
        return KeyRequest::Nothing;
    }
    if !app.search_focused && key == Key::Char('r') {
        app.request_refresh();
        return KeyRequest::Nothing;
    }
    if !app.search_focused && (key == Key::Char('q') || key == Key::Char('?') || key == Key::Char(
        'n',
    ) || key == Key::Char('E')) {
        return take_shortcut(app, key);
    }
    let h = handle_grid_key(app, key, ctrl, layout);
    assert(app.grid_key_handled(old(app), key, ctrl, layout, h));
    to_request(h)
}

/// Handle a key press (`ctrl` when Control was held) against the layout of
/// the last frame; what is left to do comes back.
pub fn handle_key(app: &mut App, key: Key, ctrl: bool, layout: &Layout) -> (out: KeyOutcome)
    requires
        old(app).key_ok(key, layout),
    ensures
        final(app).key_handled(old(app), key, ctrl, layout, out),
{
    proof {
        reveal(App::key_handled);
    }
    if ctrl && key == Key::Char('c') {
        app.running = false;
        return KeyOutcome { request: KeyRequest::Nothing, save_theme: None };
    }
    let toggled = track_sequence(app, key);
    let save_theme = if toggled {
        Some(app.color_phase > 0)
    } else {
        None
    };
    let request = handle_layers(app, key, ctrl, layout);
    KeyOutcome { request, save_theme }
}

impl App {
    /// A turn of the mouse wheel by `delta` rows: an open popup scrolls its
    /// text (not past either end of the counter); an open section or the
    /// builder moves its selection (see `scrolled`); the grid stays.
    #[verifier::opaque]
    pub open spec fn wheel_handled(&self, o: &App, delta: i32) -> bool {
        if o.popup is Some {
            *self == (App {
                popup_scroll: if delta < 0 {
                    if o.popup_scroll > 0 {
                        (o.popup_scroll - 1) as usize
                    } else {
                        0
                    }
                } else if o.popup_scroll < usize::MAX {
                    (o.popup_scroll + 1) as usize
                } else {
                    usize::MAX
                },
                ..*o
            })
        } else if o.section_open is Some || o.tx_builder_open {
            self.scrolled(o, delta)
        } else {
            *self == *o
        }
    }
}

/// Handle a turn of the mouse wheel, one row up (`-1`) or down (`1`).
pub fn handle_wheel(app: &mut App, delta: i32)
    requires
        old(app).popup is None && (old(app).section_open is Some || old(app).tx_builder_open)
            ==> old(app).scroll_ok(delta),
    ensures
        final(app).wheel_handled(old(app), delta),
{
    proof {
        reveal(App::wheel_handled);
    }
    if app.popup.is_some() {
        if delta < 0 {
            if app.popup_scroll > 0 {
                app.popup_scroll = app.popup_scroll - 1;
            }
        } else if app.popup_scroll < usize::MAX {
            app.popup_scroll = app.popup_scroll + 1;
        }
        return ;
    }
    if app.section_open.is_some() || app.tx_builder_open {
        crate::nav::scroll_selection(app, delta);
    }
}

} // verus!
