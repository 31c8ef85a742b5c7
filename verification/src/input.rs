//! The event-to-state dispatcher: maps one keyboard event to a session
//! mutation or to a command for the surrounding loop, and the pure halves of
//! the copy and paste commands (the clipboard itself is outside work).

use vstd::prelude::*;
use crate::app::{
    spec_code, spec_known_version, spec_sanitize, spec_toggled_version, spec_valid_id,
    spec_validates, same_settings, App,
};

verus! {

/// A key, as far as the dispatcher distinguishes them.
#[derive(Clone, Copy, Debug, PartialEq, Eq)]
pub enum Key {
    Char(char),
    Backspace,
    Tab,
    Enter,
    Esc,
    Other,
}

/// One keyboard event: the key, the modifiers held with it, and whether it
/// is a press (repeat and release events are ignored).
#[derive(Clone, Copy, Debug)]
pub struct KeyEvent {
    pub code: Key,
    pub control: bool,
    pub alt: bool,
    pub superkey: bool,
    pub press: bool,
}

/// The command a key event asks of the surrounding loop.
#[derive(Clone, Copy, Debug, PartialEq, Eq)]
pub enum KeyAction {
    NoAction,
    CopyCode,
    PasteId,
    OpenLink,
    Quit,
}

/// The command a control-modified key maps to; every other key with control
/// held is a no-op.
pub open spec fn spec_control_action(k: Key) -> KeyAction {
    match k {
        Key::Char(c) => if c == 'c' {
            KeyAction::CopyCode
        } else if c == 'v' {
            KeyAction::PasteId
        } else if c == 'g' {
            KeyAction::OpenLink
        } else if c == 'q' {
            KeyAction::Quit
        } else {
            KeyAction::NoAction
        },
        _ => KeyAction::NoAction,
    }
}

/// Whether any modifier is held with the key.
pub fn has_modifiers(key: &KeyEvent) -> (r: bool)
    ensures
        r == (key.control || key.alt || key.superkey),
{
    key.control || key.alt || key.superkey
}

/// Dispatches one key event.  Non-press events and unknown keys change
/// nothing.  With control held, `c`/`v`/`g`/`q` become commands for the
/// surrounding loop and every other key is a no-op.  Without control, a
/// character is appended (unless another modifier suppresses it), and
/// backspace, tab, enter and escape edit the session.
pub fn handle_key_event(app: &mut App, key: KeyEvent) -> (action: KeyAction)
    ensures
        !key.press ==> *final(app) == *old(app) && action == KeyAction::NoAction,
        key.press && key.control ==> *final(app) == *old(app) && action == spec_control_action(
            key.code,
        ),
        key.press && !key.control ==> action == KeyAction::NoAction,
        key.press && !key.control ==> match key.code {
            Key::Char(c) => if !key.alt && !key.superkey {
                final(app).battlenet_id@ == old(app).battlenet_id@.push(c) && same_settings(
                    *old(app),
                    *final(app),
                )
            } else {
                *final(app) == *old(app)
            },
            Key::Backspace => final(app).battlenet_id@ == (if old(app).battlenet_id@.len() == 0 {
                old(app).battlenet_id@
            } else {
                old(app).battlenet_id@.drop_last()
            }) && same_settings(*old(app), *final(app)),
            Key::Tab => spec_toggled_version(*old(app), *final(app)),
            Key::Enter => final(app).use_lowercase == !old(app).use_lowercase && final(app).battlenet_id
                == old(app).battlenet_id && final(app).version == old(app).version && final(
                app).copy_feedback == old(app).copy_feedback,
            Key::Esc => final(app).battlenet_id@.len() == 0 && same_settings(
                *old(app),
                *final(app),
            ),
            Key::Other => *final(app) == *old(app),
        },
{
    if !key.press {
        return KeyAction::NoAction;
    }
    if key.control {
        return match key.code {
            Key::Char(c) => {
                if c == 'c' {
                    KeyAction::CopyCode
                } else if c == 'v' {
                    KeyAction::PasteId
                } else if c == 'g' {
                    KeyAction::OpenLink
                } else if c == 'q' {
                    KeyAction::Quit
                } else {
                    KeyAction::NoAction
                }
            },
            _ => KeyAction::NoAction,
        };
    }
    match key.code {
        Key::Char(c) => {
            if !has_modifiers(&key) {
                app.add_char(c);
            }
        },
        Key::Backspace => {
            app.remove_char();
        },
        Key::Tab => {
            app.toggle_version();
        },
        Key::Enter => {
            app.use_lowercase = !app.use_lowercase;
        },
        Key::Esc => {
            app.reset_input();
        },
        Key::Other => {},
    }
    KeyAction::NoAction
}

/// The pure half of the copy command: the code to place on the clipboard,
/// owed exactly when the identifier is valid and the version recognized; on
/// any other session state the command does nothing.
pub fn copy_code_text(app: &App) -> (r: Option<String>)
    ensures
        r is Some <==> spec_valid_id(app.battlenet_id@) && spec_known_version(app.version@),
        r matches Some(code) ==> code@ == spec_code(app.battlenet_id@, app.use_lowercase)
            && spec_validates(app.battlenet_id@, code@),
{
    if !app.is_valid_battlenet_id() {
        return None;
    }
    match app.generate_code() {
        Ok(code) => Some(code),
        Err(_) => None,
    }
}

/// Records that the clipboard write succeeded: the feedback deadline is set
/// to the present moment; nothing else moves.
pub fn mark_copied(app: &mut App, now_ms: u64)
    ensures
        final(app).copy_feedback == Some(now_ms),
        final(app).battlenet_id == old(app).battlenet_id,
        final(app).use_lowercase == old(app).use_lowercase,
        final(app).version == old(app).version,
{
    app.copy_feedback = Some(now_ms);
}

/// The pure half of the paste command: replaces the identifier buffer with
/// the clipboard text, character by character, then sanitizes it.
pub fn apply_pasted_text(app: &mut App, text: &str)
    ensures
        final(app).battlenet_id@ == spec_sanitize(text@),
        same_settings(*old(app), *final(app)),
{
    let ghost pre: App = *app;
    app.reset_input();
    let n = text.unicode_len();
    let mut i: usize = 0;
    while i < n
        invariant
            n == text@.len(),
            i <= n,
            app.battlenet_id@ == text@.subrange(0, i as int),
            same_settings(pre, *app),
        decreases n - i,
    {
        let c = text.get_char(i);
        proof {
            assert(text@.subrange(0, i + 1) =~= text@.subrange(0, i as int).push(c));
        }
        app.add_char(c);
        i += 1;
    }
    proof {
        assert(text@.subrange(0, n as int) =~= text@);
    }
    app.sanitize_input();
}

} // verus!
