//! Key events from the key records of a Windows console in its legacy
//! (non-VT) input mode: a key-down flag, a virtual-key code and the UTF-16
//! unit the console typed.

use vstd::prelude::*;
use vstd::string::*;
use vstd::utf8::{encode_scalar, encode_utf8, is_scalar};
use crate::key::{Key, KeyEvent};
use crate::text::push_char;

verus! {

broadcast use vstd::string::group_string_axioms;

/// `char::from_u32`: the character with code point `i`, if `i` is a
/// Unicode scalar value (not a surrogate, not above U+10FFFF).
#[verifier::external_body]
fn char_from_u32(i: u32) -> (r: Option<char>)
    ensures
        r is Some <==> is_scalar(i),
        r matches Some(c) ==> c as u32 == i,
{
    char::from_u32(i)
}

/// The Ctrl+letter key of control character `ch`: 1 is Ctrl+A, 26 is
/// Ctrl+Z.
pub open spec fn control_letter_key(ch: u32) -> Key {
    if ch == 1 { Key::ControlA }
    else if ch == 2 { Key::ControlB }
    else if ch == 3 { Key::ControlC }
    else if ch == 4 { Key::ControlD }
    else if ch == 5 { Key::ControlE }
    else if ch == 6 { Key::ControlF }
    else if ch == 7 { Key::ControlG }
    else if ch == 8 { Key::ControlH }
    else if ch == 9 { Key::ControlI }
    else if ch == 10 { Key::ControlJ }
    else if ch == 11 { Key::ControlK }
    else if ch == 12 { Key::ControlL }
    else if ch == 13 { Key::ControlM }
    else if ch == 14 { Key::ControlN }
    else if ch == 15 { Key::ControlO }
    else if ch == 16 { Key::ControlP }
    else if ch == 17 { Key::ControlQ }
    else if ch == 18 { Key::ControlR }
    else if ch == 19 { Key::ControlS }
    else if ch == 20 { Key::ControlT }
    else if ch == 21 { Key::ControlU }
    else if ch == 22 { Key::ControlV }
    else if ch == 23 { Key::ControlW }
    else if ch == 24 { Key::ControlX }
    else if ch == 25 { Key::ControlY }
    else { Key::ControlZ }
}

/// The key of a virtual-key code that names a key of its own: Backspace,
/// Tab, Enter, Escape, Page Up/Down, End, Home, the arrows and Delete.
pub open spec fn virtual_key(vk: u16) -> Option<Key> {
    if vk == 0x08 { Some(Key::Backspace) }
    else if vk == 0x0D { Some(Key::Enter) }
    else if vk == 0x25 { Some(Key::Left) }
    else if vk == 0x26 { Some(Key::Up) }
    else if vk == 0x27 { Some(Key::Right) }
    else if vk == 0x28 { Some(Key::Down) }
    else if vk == 0x21 { Some(Key::PageUp) }
    else if vk == 0x22 { Some(Key::PageDown) }
    else if vk == 0x23 { Some(Key::End) }
    else if vk == 0x24 { Some(Key::Home) }
    else if vk == 0x2E { Some(Key::Delete) }
    else if vk == 0x09 { Some(Key::Tab) }
    else if vk == 0x1B { Some(Key::Escape) }
    else { None }
}

fn control_letter(ch: u32) -> (k: Key)
    requires
        1 <= ch <= 26,
    ensures
        k == control_letter_key(ch),
{
    if ch == 1 { Key::ControlA }
    else if ch == 2 { Key::ControlB }
    else if ch == 3 { Key::ControlC }
    else if ch == 4 { Key::ControlD }
    else if ch == 5 { Key::ControlE }
    else if ch == 6 { Key::ControlF }
    else if ch == 7 { Key::ControlG }
    else if ch == 8 { Key::ControlH }
    else if ch == 9 { Key::ControlI }
    else if ch == 10 { Key::ControlJ }
    else if ch == 11 { Key::ControlK }
    else if ch == 12 { Key::ControlL }
    else if ch == 13 { Key::ControlM }
    else if ch == 14 { Key::ControlN }
    else if ch == 15 { Key::ControlO }
    else if ch == 16 { Key::ControlP }
    else if ch == 17 { Key::ControlQ }
    else if ch == 18 { Key::ControlR }
    else if ch == 19 { Key::ControlS }
    else if ch == 20 { Key::ControlT }
    else if ch == 21 { Key::ControlU }
    else if ch == 22 { Key::ControlV }
    else if ch == 23 { Key::ControlW }
    else if ch == 24 { Key::ControlX }
    else if ch == 25 { Key::ControlY }
    else { Key::ControlZ }
}

fn special_key(vk: u16) -> (r: Option<Key>)
    ensures
        r == virtual_key(vk),
{
    if vk == 0x08 { Some(Key::Backspace) }
    else if vk == 0x0D { Some(Key::Enter) }
    else if vk == 0x25 { Some(Key::Left) }
    else if vk == 0x26 { Some(Key::Up) }
    else if vk == 0x27 { Some(Key::Right) }
    else if vk == 0x28 { Some(Key::Down) }
    else if vk == 0x21 { Some(Key::PageUp) }
    else if vk == 0x22 { Some(Key::PageDown) }
    else if vk == 0x23 { Some(Key::End) }
    else if vk == 0x24 { Some(Key::Home) }
    else if vk == 0x2E { Some(Key::Delete) }
    else if vk == 0x09 { Some(Key::Tab) }
    else if vk == 0x1B { Some(Key::Escape) }
    else { None }
}

/// The key event of a console key record. A key release gives none. A
/// control character 1..=26 is Ctrl+A..Ctrl+Z, whatever the key code; a
/// key code of its own gives that key with the code as its byte; any other
/// character from the space on is typed text, its UTF-8 bytes raw; and what
/// is left (a surrogate half, another control character) is an undefined
/// key without bytes.
pub fn translate_key(key_down: bool, virtual_key_code: u16, unicode_char: u16) -> (r: Option<KeyEvent>)
    ensures
        !key_down ==> r is None,
        key_down ==> (r matches Some(e) && ({
            let ch = unicode_char as u32;
            if 1 <= ch <= 26 {
                e.key == control_letter_key(ch) && e.raw_bytes@ == seq![ch as u8] && e.text is None
            } else {
                match virtual_key(virtual_key_code) {
                    Some(k) => e.key == k && e.raw_bytes@ == seq![virtual_key_code as u8] && e.text is None,
                    None => if ch >= 32 && is_scalar(ch) {
                        &&& e.key == Key::NotDefined
                        &&& e.raw_bytes@ == encode_scalar(ch)
                        &&& e.text matches Some(t) && t@.len() == 1 && t@[0] as u32 == ch
                    } else {
                        e.key == Key::NotDefined && e.raw_bytes@.len() == 0 && e.text is None
                    },
                }
            }
        })),
{
    if !key_down {
        return None;
    }
    let ch = unicode_char as u32;
    if 1 <= ch && ch <= 26 {
        let key = control_letter(ch);
        return Some(KeyEvent::simple(key, vec![ch as u8]));
    }
    match special_key(virtual_key_code) {
        Some(key) => Some(KeyEvent::simple(key, vec![virtual_key_code as u8])),
        None => {
            if ch >= 32 {
                if let Some(c) = char_from_u32(ch) {
                    let mut text = String::new();
                    push_char(&mut text, c);
                    let raw_bytes = text.as_str().as_bytes_vec();
                    proof {
                        assert(text@ =~= seq![c]);
                        reveal_with_fuel(encode_utf8, 2);
                        assert(seq![c].drop_first() =~= Seq::<char>::empty());
                        assert(encode_utf8(seq![c]) =~= encode_scalar(ch));
                    }
                    return Some(KeyEvent::with_text(Key::NotDefined, raw_bytes, text));
                }
            }
            Some(KeyEvent::simple(Key::NotDefined, Vec::new()))
        },
    }
}

} // verus!
