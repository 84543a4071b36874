//! # Output window input handling
//!
//! Keyboard shortcuts of the output window (Escape exits, Shift+F toggles
//! fullscreen) and the corner dragging of the video-wall edit mode.

use vstd::prelude::*;
use crate::text::{chars_of, lowercase, to_lowercase};

verus! {

broadcast use vstd::string::group_string_axioms;

/// The logical key of a keyboard event, as far as the output window cares.
#[derive(Debug, Clone, PartialEq)]
pub enum Key {
    Shift,
    Escape,
    /// A key that produces text.
    Character(String),
    Other,
}

/// What a key event asks of the application.
#[derive(Debug, Clone, Copy, PartialEq, Eq, Structural)]
pub enum KeyAction {
    Nothing,
    Exit,
    ToggleFullscreen,
}

/// Whether the Shift key is held after an event for `key` that was a press
/// (`pressed`) or a release.
pub open spec fn shift_after(shift_pressed: bool, key: Key, pressed: bool) -> bool {
    if key is Shift {
        pressed
    } else {
        shift_pressed
    }
}

/// The action of a key event: on a press, Escape exits and a character key
/// whose lower-case text is `f` toggles fullscreen while Shift is held.
pub open spec fn key_action(shift_pressed: bool, key: Key, pressed: bool) -> KeyAction {
    if !pressed {
        KeyAction::Nothing
    } else {
        match key {
            Key::Escape => KeyAction::Exit,
            Key::Character(text) => if shift_after(shift_pressed, key, pressed) && lowercase(text@)
                == "f"@ {
                KeyAction::ToggleFullscreen
            } else {
                KeyAction::Nothing
            },
            _ => KeyAction::Nothing,
        }
    }
}

/// The output window's shortcuts: only a press acts; a press of Escape
/// exits; fullscreen toggles only on a press of a character key whose
/// lower-case text is `f` while Shift is held, so a character key pressed
/// without Shift never toggles it, and with Shift held a press of a key
/// whose lower-case text is `f` always does; every other key does nothing. Shift is held exactly
/// from a press of the Shift key to its release, other keys leave it as it
/// was, so pressing Shift and then `f` toggles fullscreen.
pub proof fn law_output_shortcuts(shift_pressed: bool, key: Key, pressed: bool, text: String)
    ensures
        !pressed ==> key_action(shift_pressed, key, pressed) == KeyAction::Nothing,
        pressed && key is Escape ==> key_action(shift_pressed, key, pressed) == KeyAction::Exit,
        key_action(shift_pressed, key, pressed) == KeyAction::ToggleFullscreen ==> {
            &&& pressed
            &&& shift_after(shift_pressed, key, pressed)
            &&& key is Character
            &&& lowercase(key->Character_0@) == "f"@
        },
        !shift_after(shift_pressed, key, pressed) ==> key_action(shift_pressed, key, pressed)
            != KeyAction::ToggleFullscreen,
        !shift_pressed ==> key_action(shift_pressed, Key::Character(text), pressed)
            != KeyAction::ToggleFullscreen,
        lowercase(text@) == "f"@ ==> key_action(true, Key::Character(text), true)
            == KeyAction::ToggleFullscreen,
        key is Shift || key is Other ==> key_action(shift_pressed, key, pressed)
            == KeyAction::Nothing,
        shift_after(shift_pressed, Key::Shift, pressed) == pressed,
        !(key is Shift) ==> shift_after(shift_pressed, key, pressed) == shift_pressed,
        lowercase(text@) == "f"@ ==> key_action(
            shift_after(shift_pressed, Key::Shift, true),
            Key::Character(text),
            true,
        ) == KeyAction::ToggleFullscreen,
{
}

fn is_f(s: &str) -> (b: bool)
    ensures
        b == (s@ == "f"@),
{
    proof {
        reveal_strlit("f");
    }
    let v = chars_of(s);
    if v.len() == 1 && v[0] == 'f' {
        assert(s@ =~= "f"@);
        true
    } else {
        proof {
            if s@ == "f"@ {
                assert(v@[0] == 'f');
            }
        }
        false
    }
}

/// Handle a keyboard event of the output window: returns whether Shift is
/// held afterwards and what the event asks for.
pub fn handle_output_key(shift_pressed: bool, key: &Key, pressed: bool) -> (r: (bool, KeyAction))
    ensures
        r.0 == shift_after(shift_pressed, *key, pressed),
        r.1 == key_action(shift_pressed, *key, pressed),
{
    let shift = match key {
        Key::Shift => pressed,
        _ => shift_pressed,
    };
    if !pressed {
        return (shift, KeyAction::Nothing);
    }
    let action = match key {
        Key::Escape => KeyAction::Exit,
        Key::Character(text) => {
            if shift {
                let lower = to_lowercase(text.as_str());
                if is_f(lower.as_str()) {
                    KeyAction::ToggleFullscreen
                } else {
                    KeyAction::Nothing
                }
            } else {
                KeyAction::Nothing
            }
        },
        _ => KeyAction::Nothing,
    };
    (shift, action)
}

/// The corner-dragging state of the video-wall edit mode.
#[derive(Debug, Clone, PartialEq)]
pub struct WallEditState {
    pub edit_mode: bool,
    /// The display whose corner is dragged.
    pub edit_display: Option<u32>,
    /// The corner (0..4) being dragged.
    pub edit_corner: Option<usize>,
}

impl WallEditState {
    /// A mouse button event on the output window: releasing the left button
    /// in edit mode ends the drag.
    pub fn on_mouse_button(&mut self, left: bool, released: bool)
        ensures
            final(self).edit_mode == old(self).edit_mode,
            (left && old(self).edit_mode && released) ==> final(self).edit_display is None
                && final(self).edit_corner is None,
            !(left && old(self).edit_mode && released) ==> final(self).edit_display == old(
                self,
            ).edit_display && final(self).edit_corner == old(self).edit_corner,
    {
        if left && self.edit_mode && released {
            self.edit_corner = None;
            self.edit_display = None;
        }
    }

    /// The display corner that a cursor move drags, if any: in edit mode,
    /// with a display and a corner below 4 chosen.
    pub fn drag_target(&self) -> (t: Option<(u32, usize)>)
        ensures
            t == (if self.edit_mode && self.edit_display is Some && self.edit_corner is Some
                && self.edit_corner->0 < 4 {
                Some((self.edit_display->0, self.edit_corner->0))
            } else {
                None
            }),
    {
        if self.edit_mode {
            match (self.edit_display, self.edit_corner) {
                (Some(d), Some(c)) => if c < 4 {
                    Some((d, c))
                } else {
                    None
                },
                _ => None,
            }
        } else {
            None
        }
    }
}

} // verus!
