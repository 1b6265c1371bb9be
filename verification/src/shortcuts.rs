//! Global keyboard shortcuts, as the user writes them: a modifier named
//! somewhere in the text, and a key letter at its end.

use crate::strings::{contains_text, has_part};
use vstd::prelude::*;

verus! {

/// The modifier of a shortcut.
#[derive(Clone, Copy, Debug, PartialEq, Eq, Structural)]
pub enum ShortcutModifier {
    Alt,
    Control,
    Shift,
}

/// The key of a shortcut.
#[derive(Clone, Copy, Debug, PartialEq, Eq, Structural)]
pub enum ShortcutKey {
    T,
    S,
    C,
}

/// A shortcut: a key, with or without a modifier.
#[derive(Clone, Copy, Debug, PartialEq, Eq, Structural)]
pub struct Shortcut {
    pub modifier: Option<ShortcutModifier>,
    pub key: ShortcutKey,
}

/// The modifier that a text names. `Alt` goes before `Ctrl` and `Command`,
/// which both stand for the control key, and these go before `Shift`.
pub open spec fn modifier_in(text: Seq<char>) -> Option<ShortcutModifier> {
    if has_part(text, "Alt"@) {
        Some(ShortcutModifier::Alt)
    } else if has_part(text, "Ctrl"@) || has_part(text, "Command"@) {
        Some(ShortcutModifier::Control)
    } else if has_part(text, "Shift"@) {
        Some(ShortcutModifier::Shift)
    } else {
        None
    }
}

/// The key that a text ends with, if it is one of the supported keys.
pub open spec fn key_in(text: Seq<char>) -> Option<ShortcutKey> {
    if text.len() == 0 {
        None
    } else if text.last() == 'T' {
        Some(ShortcutKey::T)
    } else if text.last() == 'S' {
        Some(ShortcutKey::S)
    } else if text.last() == 'C' {
        Some(ShortcutKey::C)
    } else {
        None
    }
}

/// The shortcut that a text stands for, if its key is supported.
pub open spec fn shortcut_in(text: Seq<char>) -> Option<Shortcut> {
    match key_in(text) {
        Some(key) => Some(Shortcut { modifier: modifier_in(text), key }),
        None => None,
    }
}

/// The shortcut that the assistant registers when it starts.
pub fn default_shortcut() -> (shortcut: Shortcut)
    ensures
        shortcut == (Shortcut { modifier: Some(ShortcutModifier::Alt), key: ShortcutKey::T }),
{
    Shortcut { modifier: Some(ShortcutModifier::Alt), key: ShortcutKey::T }
}

/// Reads a shortcut from text such as `Alt+T`. The text must end with one of
/// the key letters `T`, `S` and `C`; anything else is an unsupported key.
pub fn parse_shortcut(text: &str) -> (parsed: Result<Shortcut, String>)
    ensures
        match parsed {
            Ok(shortcut) => shortcut_in(text@) == Some(shortcut),
            Err(message) => shortcut_in(text@) is None && message@ == "Unsupported key"@,
        },
{
    let modifier: Option<ShortcutModifier> = if contains_text(text, "Alt") {
        Some(ShortcutModifier::Alt)
    } else if contains_text(text, "Ctrl") || contains_text(text, "Command") {
        Some(ShortcutModifier::Control)
    } else if contains_text(text, "Shift") {
        Some(ShortcutModifier::Shift)
    } else {
        None
    };
    let len: usize = text.unicode_len();
    if len == 0 {
        return Err("Unsupported key".to_owned());
    }
    let last: char = text.get_char(len - 1);
    let key: ShortcutKey = if last == 'T' {
        ShortcutKey::T
    } else if last == 'S' {
        ShortcutKey::S
    } else if last == 'C' {
        ShortcutKey::C
    } else {
        return Err("Unsupported key".to_owned());
    };
    Ok(Shortcut { modifier, key })
}

} // verus!
