//! Keyboard handling that is not tied to one screen: text input fields and
//! the Submit / Cancel buttons of input popups.

use vstd::prelude::*;
use crate::input::{after_cursor, before_cursor};
use crate::state::App;
use crate::text::{byte_len, byte_len_of, char_width, chars_of};
use crate::types::PopupFocus;

verus! {

/// The keys the program reacts to.
#[derive(Debug, Clone, Copy, PartialEq, Eq, Structural)]
pub enum Key {
    Char(char),
    Enter,
    Esc,
    Tab,
    BackTab,
    Backspace,
    Delete,
    Left,
    Right,
    Up,
    Down,
    Home,
    End,
    PageUp,
    PageDown,
    /// Any other key.
    Other,
}

/// The input buffer and cursor after an editing key.
pub open spec fn edit_result(b: Seq<char>, c: nat, key: Key) -> (Seq<char>, nat) {
    let p = before_cursor(b, c);
    let a = after_cursor(b, c);
    match key {
        Key::Char(ch) => (p + seq![ch] + a, c + char_width(ch)),
        Key::Backspace => if c > 0 {
            (p.drop_last() + a, (c - char_width(p.last())) as nat)
        } else {
            (b, c)
        },
        Key::Delete => if a.len() > 0 {
            (p + a.drop_first(), c)
        } else {
            (b, c)
        },
        Key::Left => (
            b,
            if c > 0 {
                (c - char_width(p.last())) as nat
            } else {
                0
            },
        ),
        Key::Right => (
            b,
            if a.len() > 0 {
                c + char_width(a[0])
            } else {
                c
            },
        ),
        Key::Home => (b, 0),
        Key::End => (b, byte_len(b)),
        _ => (b, c),
    }
}

impl App {
    /// The input was edited by `key` (see `edit_result`); nothing else changed.
    #[verifier::opaque]
    pub open spec fn edited_by(&self, o: &App, key: Key) -> bool {
        &&& (self.input_buffer@, self.input_cursor as nat) == edit_result(
            o.input_buffer@,
            o.input_cursor as nat,
            key,
        )
        &&& *self == (App {
            input_buffer: self.input_buffer,
            input_cursor: self.input_cursor,
            ..*o
        })
    }
}

/// Handle keystrokes when editing a text input field.
pub fn handle_input_key(app: &mut App, key: Key)
    requires
        old(app).input_ok(),
    ensures
        final(app).edited_by(old(app), key),
{
    match key {
        Key::Char(c) => {
            app.input_insert(c);
            proof {
                reveal(App::edited_by);
            }
            return;
        },
        Key::Backspace => {
            app.input_backspace();
            proof {
                reveal(App::edited_by);
            }
            return;
        },
        Key::Delete => {
            app.input_delete();
            proof {
                reveal(App::edited_by);
            }
            return;
        },
        Key::Left => {
            app.input_left();
            proof {
                reveal(App::edited_by);
            }
            return;
        },
        Key::Right => {
            app.input_right();
            proof {
                reveal(App::edited_by);
            }
            return;
        },
        Key::Home => {
            app.input_cursor = 0;
            proof {
                reveal(App::edited_by);
            }
            return;
        },
        Key::End => {
            let n = byte_len_of(&chars_of(app.input_buffer.as_str()));
            app.input_cursor = n;
            proof {
                reveal(App::edited_by);
            }
            return;
        },
        _ => {
            proof {
                reveal(App::edited_by);
            }
            return;
        },
    }
}

/// Focus after Left/Right on the popup buttons: Right moves Submit to
/// Cancel, Left moves Cancel to Submit.
pub open spec fn button_focus_after(focus: PopupFocus, key: Key) -> Option<PopupFocus> {
    if focus == PopupFocus::Fields {
        None
    } else {
        match key {
            Key::Right => Some(
                if focus == PopupFocus::Submit {
                    PopupFocus::Cancel
                } else {
                    focus
                },
            ),
            Key::Left => Some(
                if focus == PopupFocus::Cancel {
                    PopupFocus::Submit
                } else {
                    focus
                },
            ),
            _ => None,
        }
    }
}

/// Handle Left/Right arrow keys to move between Submit and Cancel buttons.
/// Returns `true` if the key was consumed. Does NOT handle Tab (popup-specific
/// Tab handlers need to manage field-to-button transitions themselves).
pub fn handle_button_focus_key(app: &mut App, key: Key) -> (consumed: bool)
    ensures
        consumed == button_focus_after(old(app).popup_focus, key) is Some,
        *final(app) == (App {
            popup_focus: match button_focus_after(old(app).popup_focus, key) {
                Some(f) => f,
                None => old(app).popup_focus,
            },
            ..*old(app)
        }),
{
    let focus = app.popup_focus;
    let next = if focus == PopupFocus::Fields {
        None
    } else {
        match key {
            Key::Right => Some(
                if focus == PopupFocus::Submit {
                    PopupFocus::Cancel
                } else {
                    focus
                },
            ),
            Key::Left => Some(
                if focus == PopupFocus::Cancel {
                    PopupFocus::Submit
                } else {
                    focus
                },
            ),
            _ => None,
        }
    };
    match next {
        Some(f) => {
            app.popup_focus = f;
            true
        },
        None => false,
    }
}

} // verus!
