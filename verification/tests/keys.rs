use nih_plug_slint::event::{Code, Key};
use nih_plug_slint::keys::{key_text, special_key, SpecialKey};

const SPECIAL: [(Code, SpecialKey, char); 17] = [
    (Code::Enter, SpecialKey::Return, '\u{a}'),
    (Code::Tab, SpecialKey::Tab, '\u{9}'),
    (Code::Space, SpecialKey::Space, ' '),
    (Code::Backspace, SpecialKey::Backspace, '\u{8}'),
    (Code::Escape, SpecialKey::Escape, '\u{1b}'),
    (Code::ArrowUp, SpecialKey::UpArrow, '\u{f700}'),
    (Code::ArrowDown, SpecialKey::DownArrow, '\u{f701}'),
    (Code::ArrowLeft, SpecialKey::LeftArrow, '\u{f702}'),
    (Code::ArrowRight, SpecialKey::RightArrow, '\u{f703}'),
    (Code::ShiftLeft, SpecialKey::Shift, '\u{10}'),
    (Code::ShiftRight, SpecialKey::ShiftR, '\u{15}'),
    (Code::ControlLeft, SpecialKey::Control, '\u{11}'),
    (Code::ControlRight, SpecialKey::ControlR, '\u{16}'),
    (Code::AltLeft, SpecialKey::Alt, '\u{12}'),
    (Code::AltRight, SpecialKey::AltGr, '\u{13}'),
    (Code::MetaLeft, SpecialKey::Meta, '\u{17}'),
    (Code::MetaRight, SpecialKey::MetaR, '\u{18}'),
];

#[test]
fn special_keys_have_the_text_that_slint_gives_them() {
    for (code, key, character) in SPECIAL {
        assert_eq!(special_key(code), Some(key));
        assert_eq!(key_text(Key::Named, code), character.to_string());
    }
}

#[test]
fn special_key_texts_match_the_slint_conversions() {
    let slint_keys = [
        slint::platform::Key::Return,
        slint::platform::Key::Tab,
        slint::platform::Key::Space,
        slint::platform::Key::Backspace,
        slint::platform::Key::Escape,
        slint::platform::Key::UpArrow,
        slint::platform::Key::DownArrow,
        slint::platform::Key::LeftArrow,
        slint::platform::Key::RightArrow,
        slint::platform::Key::Shift,
        slint::platform::Key::ShiftR,
        slint::platform::Key::Control,
        slint::platform::Key::ControlR,
        slint::platform::Key::Alt,
        slint::platform::Key::AltGr,
        slint::platform::Key::Meta,
        slint::platform::Key::MetaR,
    ];
    for (i, slint_key) in slint_keys.into_iter().enumerate() {
        let text = slint::SharedString::from(slint_key);
        assert_eq!(key_text(Key::Named, SPECIAL[i].0), text.as_str());
    }
}

#[test]
fn special_key_texts_differ() {
    for (i, (first, _, _)) in SPECIAL.iter().enumerate() {
        for (j, (second, _, _)) in SPECIAL.iter().enumerate() {
            let same = key_text(Key::Named, *first) == key_text(Key::Named, *second);
            assert_eq!(same, i == j);
        }
    }
}

#[test]
fn typed_text_wins_over_the_place_of_the_key() {
    assert_eq!(key_text(Key::Character("a".to_string()), Code::Other), "a");
    assert_eq!(key_text(Key::Character("xy".to_string()), Code::Enter), "xy");
    assert_eq!(key_text(Key::Character(String::new()), Code::Enter), "");
}

#[test]
fn other_keys_have_no_text() {
    assert_eq!(special_key(Code::Other), None);
    assert_eq!(key_text(Key::Named, Code::Other), "");
}
