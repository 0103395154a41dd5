use vstd::prelude::*;
use crate::event::Key;

verus! {

// The macOS virtual keycode table.  A capture backend that reads raw
// keycodes turns them into `Key` values with `key_from_keycode`, and an
// injection backend turns a `Key` back into the code it must post with
// `keycode_from_key`.  The two directions are proved to be inverses on the
// named part of the table; a code outside the table is kept as
// `Key::Unknown` so that nothing captured is dropped.

/// The key that a macOS virtual keycode names.
pub open spec fn spec_key_from_keycode(code: u16) -> Key {
    if code == 0x00 {
        Key::KeyA
    } else if code == 0x01 {
        Key::KeyS
    } else if code == 0x02 {
        Key::KeyD
    } else if code == 0x03 {
        Key::KeyF
    } else if code == 0x04 {
        Key::KeyH
    } else if code == 0x05 {
        Key::KeyG
    } else if code == 0x06 {
        Key::KeyZ
    } else if code == 0x07 {
        Key::KeyX
    } else if code == 0x08 {
        Key::KeyC
    } else if code == 0x09 {
        Key::KeyV
    } else if code == 0x0B {
        Key::KeyB
    } else if code == 0x0C {
        Key::KeyQ
    } else if code == 0x0D {
        Key::KeyW
    } else if code == 0x0E {
        Key::KeyE
    } else if code == 0x0F {
        Key::KeyR
    } else if code == 0x10 {
        Key::KeyY
    } else if code == 0x11 {
        Key::KeyT
    } else if code == 0x12 {
        Key::Num1
    } else if code == 0x13 {
        Key::Num2
    } else if code == 0x14 {
        Key::Num3
    } else if code == 0x15 {
        Key::Num4
    } else if code == 0x16 {
        Key::Num6
    } else if code == 0x17 {
        Key::Num5
    } else if code == 0x18 {
        Key::Equal
    } else if code == 0x19 {
        Key::Num9
    } else if code == 0x1A {
        Key::Num7
    } else if code == 0x1B {
        Key::Minus
    } else if code == 0x1C {
        Key::Num8
    } else if code == 0x1D {
        Key::Num0
    } else if code == 0x1E {
        Key::RightBracket
    } else if code == 0x1F {
        Key::KeyO
    } else if code == 0x20 {
        Key::KeyU
    } else if code == 0x21 {
        Key::LeftBracket
    } else if code == 0x22 {
        Key::KeyI
    } else if code == 0x23 {
        Key::KeyP
    } else if code == 0x24 {
        Key::Return
    } else if code == 0x25 {
        Key::KeyL
    } else if code == 0x26 {
        Key::KeyJ
    } else if code == 0x27 {
        Key::Quote
    } else if code == 0x28 {
        Key::KeyK
    } else if code == 0x29 {
        Key::SemiColon
    } else if code == 0x2A {
        Key::BackSlash
    } else if code == 0x2B {
        Key::Comma
    } else if code == 0x2C {
        Key::Slash
    } else if code == 0x2D {
        Key::KeyN
    } else if code == 0x2E {
        Key::KeyM
    } else if code == 0x2F {
        Key::Dot
    } else if code == 0x30 {
        Key::Tab
    } else if code == 0x31 {
        Key::Space
    } else if code == 0x32 {
        Key::BackQuote
    } else if code == 0x33 {
        Key::Backspace
    } else if code == 0x35 {
        Key::Escape
    } else if code == 0x37 {
        Key::MetaLeft
    } else if code == 0x38 {
        Key::ShiftLeft
    } else if code == 0x39 {
        Key::CapsLock
    } else if code == 0x3A {
        Key::Alt
    } else if code == 0x3B {
        Key::ControlLeft
    } else if code == 0x3C {
        Key::ShiftRight
    } else if code == 0x3D {
        Key::AltGr
    } else if code == 0x3E {
        Key::ControlRight
    } else if code == 0x3F {
        Key::Function
    } else if code == 0x7A {
        Key::F1
    } else if code == 0x78 {
        Key::F2
    } else if code == 0x63 {
        Key::F3
    } else if code == 0x76 {
        Key::F4
    } else if code == 0x60 {
        Key::F5
    } else if code == 0x61 {
        Key::F6
    } else if code == 0x62 {
        Key::F7
    } else if code == 0x64 {
        Key::F8
    } else if code == 0x65 {
        Key::F9
    } else if code == 0x6D {
        Key::F10
    } else if code == 0x67 {
        Key::F11
    } else if code == 0x6F {
        Key::F12
    } else if code == 0x72 {
        Key::Insert
    } else if code == 0x73 {
        Key::Home
    } else if code == 0x74 {
        Key::PageUp
    } else if code == 0x75 {
        Key::Delete
    } else if code == 0x77 {
        Key::End
    } else if code == 0x79 {
        Key::PageDown
    } else if code == 0x7B {
        Key::LeftArrow
    } else if code == 0x7C {
        Key::RightArrow
    } else if code == 0x7D {
        Key::DownArrow
    } else if code == 0x7E {
        Key::UpArrow
    } else {
        Key::Unknown(code as u32)
    }
}

/// The macOS virtual keycode that posts a key, if the table names one.
pub open spec fn spec_keycode_from_key(k: Key) -> Option<u16> {
    match k {

        Key::KeyA => Some(0x00),
        Key::KeyS => Some(0x01),
        Key::KeyD => Some(0x02),
        Key::KeyF => Some(0x03),
        Key::KeyH => Some(0x04),
        Key::KeyG => Some(0x05),
        Key::KeyZ => Some(0x06),
        Key::KeyX => Some(0x07),
        Key::KeyC => Some(0x08),
        Key::KeyV => Some(0x09),
        Key::KeyB => Some(0x0B),
        Key::KeyQ => Some(0x0C),
        Key::KeyW => Some(0x0D),
        Key::KeyE => Some(0x0E),
        Key::KeyR => Some(0x0F),
        Key::KeyY => Some(0x10),
        Key::KeyT => Some(0x11),
        Key::Num1 => Some(0x12),
        Key::Num2 => Some(0x13),
        Key::Num3 => Some(0x14),
        Key::Num4 => Some(0x15),
        Key::Num6 => Some(0x16),
        Key::Num5 => Some(0x17),
        Key::Equal => Some(0x18),
        Key::Num9 => Some(0x19),
        Key::Num7 => Some(0x1A),
        Key::Minus => Some(0x1B),
        Key::Num8 => Some(0x1C),
        Key::Num0 => Some(0x1D),
        Key::RightBracket => Some(0x1E),
        Key::KeyO => Some(0x1F),
        Key::KeyU => Some(0x20),
        Key::LeftBracket => Some(0x21),
        Key::KeyI => Some(0x22),
        Key::KeyP => Some(0x23),
        Key::Return => Some(0x24),
        Key::KeyL => Some(0x25),
        Key::KeyJ => Some(0x26),
        Key::Quote => Some(0x27),
        Key::KeyK => Some(0x28),
        Key::SemiColon => Some(0x29),
        Key::BackSlash => Some(0x2A),
        Key::Comma => Some(0x2B),
        Key::Slash => Some(0x2C),
        Key::KeyN => Some(0x2D),
        Key::KeyM => Some(0x2E),
        Key::Dot => Some(0x2F),
        Key::Tab => Some(0x30),
        Key::Space => Some(0x31),
        Key::BackQuote => Some(0x32),
        Key::Backspace => Some(0x33),
        Key::Escape => Some(0x35),
        Key::MetaLeft => Some(0x37),
        Key::ShiftLeft => Some(0x38),
        Key::CapsLock => Some(0x39),
        Key::Alt => Some(0x3A),
        Key::ControlLeft => Some(0x3B),
        Key::ShiftRight => Some(0x3C),
        Key::AltGr => Some(0x3D),
        Key::ControlRight => Some(0x3E),
        Key::Function => Some(0x3F),
        Key::F1 => Some(0x7A),
        Key::F2 => Some(0x78),
        Key::F3 => Some(0x63),
        Key::F4 => Some(0x76),
        Key::F5 => Some(0x60),
        Key::F6 => Some(0x61),
        Key::F7 => Some(0x62),
        Key::F8 => Some(0x64),
        Key::F9 => Some(0x65),
        Key::F10 => Some(0x6D),
        Key::F11 => Some(0x67),
        Key::F12 => Some(0x6F),
        Key::Insert => Some(0x72),
        Key::Home => Some(0x73),
        Key::PageUp => Some(0x74),
        Key::Delete => Some(0x75),
        Key::End => Some(0x77),
        Key::PageDown => Some(0x79),
        Key::LeftArrow => Some(0x7B),
        Key::RightArrow => Some(0x7C),
        Key::DownArrow => Some(0x7D),
        Key::UpArrow => Some(0x7E),
        _ => None,
    }
}

/// Turns a raw macOS virtual keycode into the key it stands for.
pub fn key_from_keycode(code: u16) -> (k: Key)
    ensures
        k == spec_key_from_keycode(code),
{
    if code == 0x00 {
        Key::KeyA
    } else if code == 0x01 {
        Key::KeyS
    } else if code == 0x02 {
        Key::KeyD
    } else if code == 0x03 {
        Key::KeyF
    } else if code == 0x04 {
        Key::KeyH
    } else if code == 0x05 {
        Key::KeyG
    } else if code == 0x06 {
        Key::KeyZ
    } else if code == 0x07 {
        Key::KeyX
    } else if code == 0x08 {
        Key::KeyC
    } else if code == 0x09 {
        Key::KeyV
    } else if code == 0x0B {
        Key::KeyB
    } else if code == 0x0C {
        Key::KeyQ
    } else if code == 0x0D {
        Key::KeyW
    } else if code == 0x0E {
        Key::KeyE
    } else if code == 0x0F {
        Key::KeyR
    } else if code == 0x10 {
        Key::KeyY
    } else if code == 0x11 {
        Key::KeyT
    } else if code == 0x12 {
        Key::Num1
    } else if code == 0x13 {
        Key::Num2
    } else if code == 0x14 {
        Key::Num3
    } else if code == 0x15 {
        Key::Num4
    } else if code == 0x16 {
        Key::Num6
    } else if code == 0x17 {
        Key::Num5
    } else if code == 0x18 {
        Key::Equal
    } else if code == 0x19 {
        Key::Num9
    } else if code == 0x1A {
        Key::Num7
    } else if code == 0x1B {
        Key::Minus
    } else if code == 0x1C {
        Key::Num8
    } else if code == 0x1D {
        Key::Num0
    } else if code == 0x1E {
        Key::RightBracket
    } else if code == 0x1F {
        Key::KeyO
    } else if code == 0x20 {
        Key::KeyU
    } else if code == 0x21 {
        Key::LeftBracket
    } else if code == 0x22 {
        Key::KeyI
    } else if code == 0x23 {
        Key::KeyP
    } else if code == 0x24 {
        Key::Return
    } else if code == 0x25 {
        Key::KeyL
    } else if code == 0x26 {
        Key::KeyJ
    } else if code == 0x27 {
        Key::Quote
    } else if code == 0x28 {
        Key::KeyK
    } else if code == 0x29 {
        Key::SemiColon
    } else if code == 0x2A {
        Key::BackSlash
    } else if code == 0x2B {
        Key::Comma
    } else if code == 0x2C {
        Key::Slash
    } else if code == 0x2D {
        Key::KeyN
    } else if code == 0x2E {
        Key::KeyM
    } else if code == 0x2F {
        Key::Dot
    } else if code == 0x30 {
        Key::Tab
    } else if code == 0x31 {
        Key::Space
    } else if code == 0x32 {
        Key::BackQuote
    } else if code == 0x33 {
        Key::Backspace
    } else if code == 0x35 {
        Key::Escape
    } else if code == 0x37 {
        Key::MetaLeft
    } else if code == 0x38 {
        Key::ShiftLeft
    } else if code == 0x39 {
        Key::CapsLock
    } else if code == 0x3A {
        Key::Alt
    } else if code == 0x3B {
        Key::ControlLeft
    } else if code == 0x3C {
        Key::ShiftRight
    } else if code == 0x3D {
        Key::AltGr
    } else if code == 0x3E {
        Key::ControlRight
    } else if code == 0x3F {
        Key::Function
    } else if code == 0x7A {
        Key::F1
    } else if code == 0x78 {
        Key::F2
    } else if code == 0x63 {
        Key::F3
    } else if code == 0x76 {
        Key::F4
    } else if code == 0x60 {
        Key::F5
    } else if code == 0x61 {
        Key::F6
    } else if code == 0x62 {
        Key::F7
    } else if code == 0x64 {
        Key::F8
    } else if code == 0x65 {
        Key::F9
    } else if code == 0x6D {
        Key::F10
    } else if code == 0x67 {
        Key::F11
    } else if code == 0x6F {
        Key::F12
    } else if code == 0x72 {
        Key::Insert
    } else if code == 0x73 {
        Key::Home
    } else if code == 0x74 {
        Key::PageUp
    } else if code == 0x75 {
        Key::Delete
    } else if code == 0x77 {
        Key::End
    } else if code == 0x79 {
        Key::PageDown
    } else if code == 0x7B {
        Key::LeftArrow
    } else if code == 0x7C {
        Key::RightArrow
    } else if code == 0x7D {
        Key::DownArrow
    } else if code == 0x7E {
        Key::UpArrow
    } else {
        Key::Unknown(code as u32)
    }
}

/// Turns a key back into the macOS virtual keycode that posts it.
pub fn keycode_from_key(k: Key) -> (code: Option<u16>)
    ensures
        code == spec_keycode_from_key(k),
{
    match k {

        Key::KeyA => Some(0x00),
        Key::KeyS => Some(0x01),
        Key::KeyD => Some(0x02),
        Key::KeyF => Some(0x03),
        Key::KeyH => Some(0x04),
        Key::KeyG => Some(0x05),
        Key::KeyZ => Some(0x06),
        Key::KeyX => Some(0x07),
        Key::KeyC => Some(0x08),
        Key::KeyV => Some(0x09),
        Key::KeyB => Some(0x0B),
        Key::KeyQ => Some(0x0C),
        Key::KeyW => Some(0x0D),
        Key::KeyE => Some(0x0E),
        Key::KeyR => Some(0x0F),
        Key::KeyY => Some(0x10),
        Key::KeyT => Some(0x11),
        Key::Num1 => Some(0x12),
        Key::Num2 => Some(0x13),
        Key::Num3 => Some(0x14),
        Key::Num4 => Some(0x15),
        Key::Num6 => Some(0x16),
        Key::Num5 => Some(0x17),
        Key::Equal => Some(0x18),
        Key::Num9 => Some(0x19),
        Key::Num7 => Some(0x1A),
        Key::Minus => Some(0x1B),
        Key::Num8 => Some(0x1C),
        Key::Num0 => Some(0x1D),
        Key::RightBracket => Some(0x1E),
        Key::KeyO => Some(0x1F),
        Key::KeyU => Some(0x20),
        Key::LeftBracket => Some(0x21),
        Key::KeyI => Some(0x22),
        Key::KeyP => Some(0x23),
        Key::Return => Some(0x24),
        Key::KeyL => Some(0x25),
        Key::KeyJ => Some(0x26),
        Key::Quote => Some(0x27),
        Key::KeyK => Some(0x28),
        Key::SemiColon => Some(0x29),
        Key::BackSlash => Some(0x2A),
        Key::Comma => Some(0x2B),
        Key::Slash => Some(0x2C),
        Key::KeyN => Some(0x2D),
        Key::KeyM => Some(0x2E),
        Key::Dot => Some(0x2F),
        Key::Tab => Some(0x30),
        Key::Space => Some(0x31),
        Key::BackQuote => Some(0x32),
        Key::Backspace => Some(0x33),
        Key::Escape => Some(0x35),
        Key::MetaLeft => Some(0x37),
        Key::ShiftLeft => Some(0x38),
        Key::CapsLock => Some(0x39),
        Key::Alt => Some(0x3A),
        Key::ControlLeft => Some(0x3B),
        Key::ShiftRight => Some(0x3C),
        Key::AltGr => Some(0x3D),
        Key::ControlRight => Some(0x3E),
        Key::Function => Some(0x3F),
        Key::F1 => Some(0x7A),
        Key::F2 => Some(0x78),
        Key::F3 => Some(0x63),
        Key::F4 => Some(0x76),
        Key::F5 => Some(0x60),
        Key::F6 => Some(0x61),
        Key::F7 => Some(0x62),
        Key::F8 => Some(0x64),
        Key::F9 => Some(0x65),
        Key::F10 => Some(0x6D),
        Key::F11 => Some(0x67),
        Key::F12 => Some(0x6F),
        Key::Insert => Some(0x72),
        Key::Home => Some(0x73),
        Key::PageUp => Some(0x74),
        Key::Delete => Some(0x75),
        Key::End => Some(0x77),
        Key::PageDown => Some(0x79),
        Key::LeftArrow => Some(0x7B),
        Key::RightArrow => Some(0x7C),
        Key::DownArrow => Some(0x7D),
        Key::UpArrow => Some(0x7E),
        _ => None,
    }
}

/// Decoding a keycode and encoding the result again gives the code back:
/// the table is injective, and a code it does not name decodes to
/// `Key::Unknown` carrying exactly that code.
pub proof fn lemma_keycode_roundtrip(code: u16)
    ensures
        spec_key_from_keycode(code) matches Key::Unknown(raw) ==> raw == code as u32,
        !(spec_key_from_keycode(code) is Unknown) ==> spec_keycode_from_key(
            spec_key_from_keycode(code),
        ) == Some(code),
{
}

/// Encoding a key and decoding the result gives the key back, whenever the
/// table names a code for it.
pub proof fn lemma_key_roundtrip(k: Key)
    ensures
        spec_keycode_from_key(k) matches Some(code) ==> spec_key_from_keycode(code) == k,
{
}

} // verus!
