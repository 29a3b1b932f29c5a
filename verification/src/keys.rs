//! The text that stands for a key in Slint.

use crate::event::{Code, Key};
use slint::platform::Key as SlintKey;
use slint::SharedString;
use vstd::prelude::*;

verus! {

/// A key that types no text of its own but has a text in Slint.
#[derive(Clone, Copy, Debug, PartialEq, Eq)]
pub enum SpecialKey {
    Return,
    Tab,
    Space,
    Backspace,
    Escape,
    UpArrow,
    DownArrow,
    LeftArrow,
    RightArrow,
    Shift,
    ShiftR,
    Control,
    ControlR,
    Alt,
    AltGr,
    Meta,
    MetaR,
}

impl SpecialKey {
    /// The character that stands for the key: a control code, or for the arrows a code point
    /// of the private use area.
    pub open spec fn character(self) -> char {
        match self {
            SpecialKey::Return => '\u{000a}',
            SpecialKey::Tab => '\u{0009}',
            SpecialKey::Space => '\u{0020}',
            SpecialKey::Backspace => '\u{0008}',
            SpecialKey::Escape => '\u{001b}',
            SpecialKey::UpArrow => '\u{f700}',
            SpecialKey::DownArrow => '\u{f701}',
            SpecialKey::LeftArrow => '\u{f702}',
            SpecialKey::RightArrow => '\u{f703}',
            SpecialKey::Shift => '\u{0010}',
            SpecialKey::ShiftR => '\u{0015}',
            SpecialKey::Control => '\u{0011}',
            SpecialKey::ControlR => '\u{0016}',
            SpecialKey::Alt => '\u{0012}',
            SpecialKey::AltGr => '\u{0013}',
            SpecialKey::Meta => '\u{0017}',
            SpecialKey::MetaR => '\u{0018}',
        }
    }
}

/// `SharedString::from` on a `slint::platform::Key`: a text of one character, the one that
/// Slint has for the key.
#[verifier::external_body]
fn special_key_text(key: SpecialKey) -> (text: String)
    ensures
        text@ == seq![key.character()],
{
    SharedString::from(match key {
        SpecialKey::Return => SlintKey::Return, SpecialKey::Tab => SlintKey::Tab,
        SpecialKey::Space => SlintKey::Space, SpecialKey::Backspace => SlintKey::Backspace,
        SpecialKey::Escape => SlintKey::Escape, SpecialKey::UpArrow => SlintKey::UpArrow,
        SpecialKey::DownArrow => SlintKey::DownArrow, SpecialKey::LeftArrow => SlintKey::LeftArrow,
        SpecialKey::RightArrow => SlintKey::RightArrow, SpecialKey::Shift => SlintKey::Shift,
        SpecialKey::ShiftR => SlintKey::ShiftR, SpecialKey::Control => SlintKey::Control,
        SpecialKey::ControlR => SlintKey::ControlR, SpecialKey::Alt => SlintKey::Alt,
        SpecialKey::AltGr => SlintKey::AltGr, SpecialKey::Meta => SlintKey::Meta,
        SpecialKey::MetaR => SlintKey::MetaR,
    }).to_string()
}

/// The special key that sits at a place on the keyboard, if one does.
pub open spec fn special_key_at(code: Code) -> Option<SpecialKey> {
    match code {
        Code::Enter => Some(SpecialKey::Return),
        Code::Tab => Some(SpecialKey::Tab),
        Code::Space => Some(SpecialKey::Space),
        Code::Backspace => Some(SpecialKey::Backspace),
        Code::Escape => Some(SpecialKey::Escape),
        Code::ArrowUp => Some(SpecialKey::UpArrow),
        Code::ArrowDown => Some(SpecialKey::DownArrow),
        Code::ArrowLeft => Some(SpecialKey::LeftArrow),
        Code::ArrowRight => Some(SpecialKey::RightArrow),
        Code::ShiftLeft => Some(SpecialKey::Shift),
        Code::ShiftRight => Some(SpecialKey::ShiftR),
        Code::ControlLeft => Some(SpecialKey::Control),
        Code::ControlRight => Some(SpecialKey::ControlR),
        Code::AltLeft => Some(SpecialKey::Alt),
        Code::AltRight => Some(SpecialKey::AltGr),
        Code::MetaLeft => Some(SpecialKey::Meta),
        Code::MetaRight => Some(SpecialKey::MetaR),
        Code::Other => None,
    }
}

/// The special key that sits at a place on the keyboard, if one does.
pub fn special_key(code: Code) -> (key: Option<SpecialKey>)
    ensures
        key == special_key_at(code),
{
    match code {
        Code::Enter => Some(SpecialKey::Return),
        Code::Tab => Some(SpecialKey::Tab),
        Code::Space => Some(SpecialKey::Space),
        Code::Backspace => Some(SpecialKey::Backspace),
        Code::Escape => Some(SpecialKey::Escape),
        Code::ArrowUp => Some(SpecialKey::UpArrow),
        Code::ArrowDown => Some(SpecialKey::DownArrow),
        Code::ArrowLeft => Some(SpecialKey::LeftArrow),
        Code::ArrowRight => Some(SpecialKey::RightArrow),
        Code::ShiftLeft => Some(SpecialKey::Shift),
        Code::ShiftRight => Some(SpecialKey::ShiftR),
        Code::ControlLeft => Some(SpecialKey::Control),
        Code::ControlRight => Some(SpecialKey::ControlR),
        Code::AltLeft => Some(SpecialKey::Alt),
        Code::AltRight => Some(SpecialKey::AltGr),
        Code::MetaLeft => Some(SpecialKey::Meta),
        Code::MetaRight => Some(SpecialKey::MetaR),
        Code::Other => None,
    }
}

/// The text that Slint is told for a key: what the key types, else the character of the
/// special key at its place, else nothing.
pub open spec fn slint_text(key: Key<Seq<char>>, code: Code) -> Seq<char> {
    match (key, special_key_at(code)) {
        (Key::Character(text), _) => text,
        (Key::Named, Some(special)) => seq![special.character()],
        (Key::Named, None) => seq![],
    }
}

/// The text that Slint is told for a key: what the key types, else the character of the
/// special key at its place, else nothing.
pub fn key_text(key: Key<String>, code: Code) -> (text: String)
    ensures
        text@ == slint_text(key@, code),
{
    match key {
        Key::Character(text) => text,
        Key::Named => match special_key(code) {
            Some(special) => special_key_text(special),
            None => String::new(),
        },
    }
}

} // verus!
