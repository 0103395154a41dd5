use vstd::prelude::*;

use crate::engine::Engine;
use crate::event::{Action, Button, InputEvent, Key};

verus! {

// The persisted script format.  A script is a little-endian byte encoding
// of the record buffer: an eight-byte event count, then one fixed-width
// record per event — eight bytes of timestamp, one tag byte naming the
// action variant, and two eight-byte payload words.  Encoding is total and
// deterministic; decoding fails on truncated or structurally invalid
// input, and decoding an encoded buffer gives the buffer back exactly.

/// Why a script failed to decode.
#[derive(Clone, Copy, Debug, PartialEq, Eq, Structural)]
pub enum DecodeError {
    /// Shorter than the eight-byte count header.
    Truncated,
    /// The body is not exactly the length the header announces.
    WrongLength,
    /// A record carries an unknown tag or an out-of-range payload.
    BadRecord,
}

/// The eight little-endian bytes of a 64-bit word.
pub open spec fn spec_u64_le(v: u64) -> Seq<u8> {
    seq![
        (v & 0xFF) as u8,
        ((v >> 8) & 0xFF) as u8,
        ((v >> 16) & 0xFF) as u8,
        ((v >> 24) & 0xFF) as u8,
        ((v >> 32) & 0xFF) as u8,
        ((v >> 40) & 0xFF) as u8,
        ((v >> 48) & 0xFF) as u8,
        ((v >> 56) & 0xFF) as u8,
    ]
}

/// The 64-bit word eight little-endian bytes stand for.
pub open spec fn spec_u64_of_le(s: Seq<u8>) -> u64
    recommends
        s.len() == 8,
{
    (s[0] as u64) | ((s[1] as u64) << 8) | ((s[2] as u64) << 16) | ((s[3] as u64) << 24) | ((
    s[4] as u64) << 32) | ((s[5] as u64) << 40) | ((s[6] as u64) << 48) | ((s[7] as u64) << 56)
}

pub proof fn lemma_u64_le_roundtrip(v: u64)
    ensures
        spec_u64_of_le(spec_u64_le(v)) == v,
{
    assert(((v & 0xFF) as u8 as u64) | ((((v >> 8) & 0xFF) as u8 as u64) << 8) | ((((v >> 16)
        & 0xFF) as u8 as u64) << 16) | ((((v >> 24) & 0xFF) as u8 as u64) << 24) | ((((v >> 32)
        & 0xFF) as u8 as u64) << 32) | ((((v >> 40) & 0xFF) as u8 as u64) << 40) | ((((v >> 48)
        & 0xFF) as u8 as u64) << 48) | ((((v >> 56) & 0xFF) as u8 as u64) << 56) == v)
        by (bit_vector);
}

fn push_u64_le(out: &mut Vec<u8>, v: u64)
    ensures
        final(out)@ == old(out)@ + spec_u64_le(v),
{
    out.push((v & 0xFF) as u8);
    out.push(((v >> 8) & 0xFF) as u8);
    out.push(((v >> 16) & 0xFF) as u8);
    out.push(((v >> 24) & 0xFF) as u8);
    out.push(((v >> 32) & 0xFF) as u8);
    out.push(((v >> 40) & 0xFF) as u8);
    out.push(((v >> 48) & 0xFF) as u8);
    out.push(((v >> 56) & 0xFF) as u8);
}

fn read_u64_le(bytes: &Vec<u8>, off: usize) -> (v: u64)
    requires
        off + 8 <= bytes@.len(),
    ensures
        v == spec_u64_of_le(bytes@.subrange(off as int, off as int + 8)),
{
    let _len = bytes.len();
    let v = (bytes[off] as u64) | ((bytes[off + 1] as u64) << 8) | ((bytes[off + 2] as u64) << 16)
        | ((bytes[off + 3] as u64) << 24) | ((bytes[off + 4] as u64) << 32) | ((bytes[off
        + 5] as u64) << 40) | ((bytes[off + 6] as u64) << 48) | ((bytes[off + 7] as u64) << 56);
    proof {
        let s = bytes@.subrange(off as int, off as int + 8);
        assert(s[0] == bytes@[off as int]);
        assert(s[1] == bytes@[off as int + 1]);
        assert(s[2] == bytes@[off as int + 2]);
        assert(s[3] == bytes@[off as int + 3]);
        assert(s[4] == bytes@[off as int + 4]);
        assert(s[5] == bytes@[off as int + 5]);
        assert(s[6] == bytes@[off as int + 6]);
        assert(s[7] == bytes@[off as int + 7]);
    }
    v
}

/// The serial index of a key: named keys count up in declaration order,
/// and the raw-code escape comes last.
pub open spec fn spec_key_index(k: Key) -> u64 {
    match k {

        Key::Alt => 0,
        Key::AltGr => 1,
        Key::Backspace => 2,
        Key::CapsLock => 3,
        Key::ControlLeft => 4,
        Key::ControlRight => 5,
        Key::Delete => 6,
        Key::DownArrow => 7,
        Key::End => 8,
        Key::Escape => 9,
        Key::F1 => 10,
        Key::F10 => 11,
        Key::F11 => 12,
        Key::F12 => 13,
        Key::F2 => 14,
        Key::F3 => 15,
        Key::F4 => 16,
        Key::F5 => 17,
        Key::F6 => 18,
        Key::F7 => 19,
        Key::F8 => 20,
        Key::F9 => 21,
        Key::Home => 22,
        Key::LeftArrow => 23,
        Key::MetaLeft => 24,
        Key::MetaRight => 25,
        Key::PageDown => 26,
        Key::PageUp => 27,
        Key::Return => 28,
        Key::RightArrow => 29,
        Key::ShiftLeft => 30,
        Key::ShiftRight => 31,
        Key::Space => 32,
        Key::Tab => 33,
        Key::UpArrow => 34,
        Key::PrintScreen => 35,
        Key::ScrollLock => 36,
        Key::Pause => 37,
        Key::NumLock => 38,
        Key::BackQuote => 39,
        Key::Num1 => 40,
        Key::Num2 => 41,
        Key::Num3 => 42,
        Key::Num4 => 43,
        Key::Num5 => 44,
        Key::Num6 => 45,
        Key::Num7 => 46,
        Key::Num8 => 47,
        Key::Num9 => 48,
        Key::Num0 => 49,
        Key::Minus => 50,
        Key::Equal => 51,
        Key::KeyQ => 52,
        Key::KeyW => 53,
        Key::KeyE => 54,
        Key::KeyR => 55,
        Key::KeyT => 56,
        Key::KeyY => 57,
        Key::KeyU => 58,
        Key::KeyI => 59,
        Key::KeyO => 60,
        Key::KeyP => 61,
        Key::LeftBracket => 62,
        Key::RightBracket => 63,
        Key::KeyA => 64,
        Key::KeyS => 65,
        Key::KeyD => 66,
        Key::KeyF => 67,
        Key::KeyG => 68,
        Key::KeyH => 69,
        Key::KeyJ => 70,
        Key::KeyK => 71,
        Key::KeyL => 72,
        Key::SemiColon => 73,
        Key::Quote => 74,
        Key::BackSlash => 75,
        Key::IntlBackslash => 76,
        Key::KeyZ => 77,
        Key::KeyX => 78,
        Key::KeyC => 79,
        Key::KeyV => 80,
        Key::KeyB => 81,
        Key::KeyN => 82,
        Key::KeyM => 83,
        Key::Comma => 84,
        Key::Dot => 85,
        Key::Slash => 86,
        Key::Insert => 87,
        Key::KpReturn => 88,
        Key::KpMinus => 89,
        Key::KpPlus => 90,
        Key::KpMultiply => 91,
        Key::KpDivide => 92,
        Key::Kp0 => 93,
        Key::Kp1 => 94,
        Key::Kp2 => 95,
        Key::Kp3 => 96,
        Key::Kp4 => 97,
        Key::Kp5 => 98,
        Key::Kp6 => 99,
        Key::Kp7 => 100,
        Key::Kp8 => 101,
        Key::Kp9 => 102,
        Key::KpDelete => 103,
        Key::Function => 104,
        Key::Unknown(_) => 105,
    }
}

/// The payload word a key carries: the raw code for an unnamed key.
pub open spec fn spec_key_payload(k: Key) -> u64 {
    match k {
        Key::Unknown(raw) => raw as u64,
        _ => 0,
    }
}

/// The key a serial index and payload word stand for.
pub open spec fn spec_key_from_parts(idx: u64, payload: u64) -> Option<Key> {
    if idx == 0 {
        Some(Key::Alt)
    } else if idx == 1 {
        Some(Key::AltGr)
    } else if idx == 2 {
        Some(Key::Backspace)
    } else if idx == 3 {
        Some(Key::CapsLock)
    } else if idx == 4 {
        Some(Key::ControlLeft)
    } else if idx == 5 {
        Some(Key::ControlRight)
    } else if idx == 6 {
        Some(Key::Delete)
    } else if idx == 7 {
        Some(Key::DownArrow)
    } else if idx == 8 {
        Some(Key::End)
    } else if idx == 9 {
        Some(Key::Escape)
    } else if idx == 10 {
        Some(Key::F1)
    } else if idx == 11 {
        Some(Key::F10)
    } else if idx == 12 {
        Some(Key::F11)
    } else if idx == 13 {
        Some(Key::F12)
    } else if idx == 14 {
        Some(Key::F2)
    } else if idx == 15 {
        Some(Key::F3)
    } else if idx == 16 {
        Some(Key::F4)
    } else if idx == 17 {
        Some(Key::F5)
    } else if idx == 18 {
        Some(Key::F6)
    } else if idx == 19 {
        Some(Key::F7)
    } else if idx == 20 {
        Some(Key::F8)
    } else if idx == 21 {
        Some(Key::F9)
    } else if idx == 22 {
        Some(Key::Home)
    } else if idx == 23 {
        Some(Key::LeftArrow)
    } else if idx == 24 {
        Some(Key::MetaLeft)
    } else if idx == 25 {
        Some(Key::MetaRight)
    } else if idx == 26 {
        Some(Key::PageDown)
    } else if idx == 27 {
        Some(Key::PageUp)
    } else if idx == 28 {
        Some(Key::Return)
    } else if idx == 29 {
        Some(Key::RightArrow)
    } else if idx == 30 {
        Some(Key::ShiftLeft)
    } else if idx == 31 {
        Some(Key::ShiftRight)
    } else if idx == 32 {
        Some(Key::Space)
    } else if idx == 33 {
        Some(Key::Tab)
    } else if idx == 34 {
        Some(Key::UpArrow)
    } else if idx == 35 {
        Some(Key::PrintScreen)
    } else if idx == 36 {
        Some(Key::ScrollLock)
    } else if idx == 37 {
        Some(Key::Pause)
    } else if idx == 38 {
        Some(Key::NumLock)
    } else if idx == 39 {
        Some(Key::BackQuote)
    } else if idx == 40 {
        Some(Key::Num1)
    } else if idx == 41 {
        Some(Key::Num2)
    } else if idx == 42 {
        Some(Key::Num3)
    } else if idx == 43 {
        Some(Key::Num4)
    } else if idx == 44 {
        Some(Key::Num5)
    } else if idx == 45 {
        Some(Key::Num6)
    } else if idx == 46 {
        Some(Key::Num7)
    } else if idx == 47 {
        Some(Key::Num8)
    } else if idx == 48 {
        Some(Key::Num9)
    } else if idx == 49 {
        Some(Key::Num0)
    } else if idx == 50 {
        Some(Key::Minus)
    } else if idx == 51 {
        Some(Key::Equal)
    } else if idx == 52 {
        Some(Key::KeyQ)
    } else if idx == 53 {
        Some(Key::KeyW)
    } else if idx == 54 {
        Some(Key::KeyE)
    } else if idx == 55 {
        Some(Key::KeyR)
    } else if idx == 56 {
        Some(Key::KeyT)
    } else if idx == 57 {
        Some(Key::KeyY)
    } else if idx == 58 {
        Some(Key::KeyU)
    } else if idx == 59 {
        Some(Key::KeyI)
    } else if idx == 60 {
        Some(Key::KeyO)
    } else if idx == 61 {
        Some(Key::KeyP)
    } else if idx == 62 {
        Some(Key::LeftBracket)
    } else if idx == 63 {
        Some(Key::RightBracket)
    } else if idx == 64 {
        Some(Key::KeyA)
    } else if idx == 65 {
        Some(Key::KeyS)
    } else if idx == 66 {
        Some(Key::KeyD)
    } else if idx == 67 {
        Some(Key::KeyF)
    } else if idx == 68 {
        Some(Key::KeyG)
    } else if idx == 69 {
        Some(Key::KeyH)
    } else if idx == 70 {
        Some(Key::KeyJ)
    } else if idx == 71 {
        Some(Key::KeyK)
    } else if idx == 72 {
        Some(Key::KeyL)
    } else if idx == 73 {
        Some(Key::SemiColon)
    } else if idx == 74 {
        Some(Key::Quote)
    } else if idx == 75 {
        Some(Key::BackSlash)
    } else if idx == 76 {
        Some(Key::IntlBackslash)
    } else if idx == 77 {
        Some(Key::KeyZ)
    } else if idx == 78 {
        Some(Key::KeyX)
    } else if idx == 79 {
        Some(Key::KeyC)
    } else if idx == 80 {
        Some(Key::KeyV)
    } else if idx == 81 {
        Some(Key::KeyB)
    } else if idx == 82 {
        Some(Key::KeyN)
    } else if idx == 83 {
        Some(Key::KeyM)
    } else if idx == 84 {
        Some(Key::Comma)
    } else if idx == 85 {
        Some(Key::Dot)
    } else if idx == 86 {
        Some(Key::Slash)
    } else if idx == 87 {
        Some(Key::Insert)
    } else if idx == 88 {
        Some(Key::KpReturn)
    } else if idx == 89 {
        Some(Key::KpMinus)
    } else if idx == 90 {
        Some(Key::KpPlus)
    } else if idx == 91 {
        Some(Key::KpMultiply)
    } else if idx == 92 {
        Some(Key::KpDivide)
    } else if idx == 93 {
        Some(Key::Kp0)
    } else if idx == 94 {
        Some(Key::Kp1)
    } else if idx == 95 {
        Some(Key::Kp2)
    } else if idx == 96 {
        Some(Key::Kp3)
    } else if idx == 97 {
        Some(Key::Kp4)
    } else if idx == 98 {
        Some(Key::Kp5)
    } else if idx == 99 {
        Some(Key::Kp6)
    } else if idx == 100 {
        Some(Key::Kp7)
    } else if idx == 101 {
        Some(Key::Kp8)
    } else if idx == 102 {
        Some(Key::Kp9)
    } else if idx == 103 {
        Some(Key::KpDelete)
    } else if idx == 104 {
        Some(Key::Function)
    } else if idx == 105 {
        if payload <= u32::MAX as u64 {
            Some(Key::Unknown(payload as u32))
        } else {
            None
        }
    } else {
        None
    }
}

fn key_index(k: &Key) -> (i: u64)
    ensures
        i == spec_key_index(*k),
{
    match k {

        Key::Alt => 0,
        Key::AltGr => 1,
        Key::Backspace => 2,
        Key::CapsLock => 3,
        Key::ControlLeft => 4,
        Key::ControlRight => 5,
        Key::Delete => 6,
        Key::DownArrow => 7,
        Key::End => 8,
        Key::Escape => 9,
        Key::F1 => 10,
        Key::F10 => 11,
        Key::F11 => 12,
        Key::F12 => 13,
        Key::F2 => 14,
        Key::F3 => 15,
        Key::F4 => 16,
        Key::F5 => 17,
        Key::F6 => 18,
        Key::F7 => 19,
        Key::F8 => 20,
        Key::F9 => 21,
        Key::Home => 22,
        Key::LeftArrow => 23,
        Key::MetaLeft => 24,
        Key::MetaRight => 25,
        Key::PageDown => 26,
        Key::PageUp => 27,
        Key::Return => 28,
        Key::RightArrow => 29,
        Key::ShiftLeft => 30,
        Key::ShiftRight => 31,
        Key::Space => 32,
        Key::Tab => 33,
        Key::UpArrow => 34,
        Key::PrintScreen => 35,
        Key::ScrollLock => 36,
        Key::Pause => 37,
        Key::NumLock => 38,
        Key::BackQuote => 39,
        Key::Num1 => 40,
        Key::Num2 => 41,
        Key::Num3 => 42,
        Key::Num4 => 43,
        Key::Num5 => 44,
        Key::Num6 => 45,
        Key::Num7 => 46,
        Key::Num8 => 47,
        Key::Num9 => 48,
        Key::Num0 => 49,
        Key::Minus => 50,
        Key::Equal => 51,
        Key::KeyQ => 52,
        Key::KeyW => 53,
        Key::KeyE => 54,
        Key::KeyR => 55,
        Key::KeyT => 56,
        Key::KeyY => 57,
        Key::KeyU => 58,
        Key::KeyI => 59,
        Key::KeyO => 60,
        Key::KeyP => 61,
        Key::LeftBracket => 62,
        Key::RightBracket => 63,
        Key::KeyA => 64,
        Key::KeyS => 65,
        Key::KeyD => 66,
        Key::KeyF => 67,
        Key::KeyG => 68,
        Key::KeyH => 69,
        Key::KeyJ => 70,
        Key::KeyK => 71,
        Key::KeyL => 72,
        Key::SemiColon => 73,
        Key::Quote => 74,
        Key::BackSlash => 75,
        Key::IntlBackslash => 76,
        Key::KeyZ => 77,
        Key::KeyX => 78,
        Key::KeyC => 79,
        Key::KeyV => 80,
        Key::KeyB => 81,
        Key::KeyN => 82,
        Key::KeyM => 83,
        Key::Comma => 84,
        Key::Dot => 85,
        Key::Slash => 86,
        Key::Insert => 87,
        Key::KpReturn => 88,
        Key::KpMinus => 89,
        Key::KpPlus => 90,
        Key::KpMultiply => 91,
        Key::KpDivide => 92,
        Key::Kp0 => 93,
        Key::Kp1 => 94,
        Key::Kp2 => 95,
        Key::Kp3 => 96,
        Key::Kp4 => 97,
        Key::Kp5 => 98,
        Key::Kp6 => 99,
        Key::Kp7 => 100,
        Key::Kp8 => 101,
        Key::Kp9 => 102,
        Key::KpDelete => 103,
        Key::Function => 104,
        Key::Unknown(_) => 105,
    }
}

fn key_payload(k: &Key) -> (p: u64)
    ensures
        p == spec_key_payload(*k),
{
    match k {
        Key::Unknown(raw) => *raw as u64,
        _ => 0,
    }
}

fn key_from_parts(idx: u64, payload: u64) -> (k: Option<Key>)
    ensures
        k == spec_key_from_parts(idx, payload),
{
    if idx == 0 {
        Some(Key::Alt)
    } else if idx == 1 {
        Some(Key::AltGr)
    } else if idx == 2 {
        Some(Key::Backspace)
    } else if idx == 3 {
        Some(Key::CapsLock)
    } else if idx == 4 {
        Some(Key::ControlLeft)
    } else if idx == 5 {
        Some(Key::ControlRight)
    } else if idx == 6 {
        Some(Key::Delete)
    } else if idx == 7 {
        Some(Key::DownArrow)
    } else if idx == 8 {
        Some(Key::End)
    } else if idx == 9 {
        Some(Key::Escape)
    } else if idx == 10 {
        Some(Key::F1)
    } else if idx == 11 {
        Some(Key::F10)
    } else if idx == 12 {
        Some(Key::F11)
    } else if idx == 13 {
        Some(Key::F12)
    } else if idx == 14 {
        Some(Key::F2)
    } else if idx == 15 {
        Some(Key::F3)
    } else if idx == 16 {
        Some(Key::F4)
    } else if idx == 17 {
        Some(Key::F5)
    } else if idx == 18 {
        Some(Key::F6)
    } else if idx == 19 {
        Some(Key::F7)
    } else if idx == 20 {
        Some(Key::F8)
    } else if idx == 21 {
        Some(Key::F9)
    } else if idx == 22 {
        Some(Key::Home)
    } else if idx == 23 {
        Some(Key::LeftArrow)
    } else if idx == 24 {
        Some(Key::MetaLeft)
    } else if idx == 25 {
        Some(Key::MetaRight)
    } else if idx == 26 {
        Some(Key::PageDown)
    } else if idx == 27 {
        Some(Key::PageUp)
    } else if idx == 28 {
        Some(Key::Return)
    } else if idx == 29 {
        Some(Key::RightArrow)
    } else if idx == 30 {
        Some(Key::ShiftLeft)
    } else if idx == 31 {
        Some(Key::ShiftRight)
    } else if idx == 32 {
        Some(Key::Space)
    } else if idx == 33 {
        Some(Key::Tab)
    } else if idx == 34 {
        Some(Key::UpArrow)
    } else if idx == 35 {
        Some(Key::PrintScreen)
    } else if idx == 36 {
        Some(Key::ScrollLock)
    } else if idx == 37 {
        Some(Key::Pause)
    } else if idx == 38 {
        Some(Key::NumLock)
    } else if idx == 39 {
        Some(Key::BackQuote)
    } else if idx == 40 {
        Some(Key::Num1)
    } else if idx == 41 {
        Some(Key::Num2)
    } else if idx == 42 {
        Some(Key::Num3)
    } else if idx == 43 {
        Some(Key::Num4)
    } else if idx == 44 {
        Some(Key::Num5)
    } else if idx == 45 {
        Some(Key::Num6)
    } else if idx == 46 {
        Some(Key::Num7)
    } else if idx == 47 {
        Some(Key::Num8)
    } else if idx == 48 {
        Some(Key::Num9)
    } else if idx == 49 {
        Some(Key::Num0)
    } else if idx == 50 {
        Some(Key::Minus)
    } else if idx == 51 {
        Some(Key::Equal)
    } else if idx == 52 {
        Some(Key::KeyQ)
    } else if idx == 53 {
        Some(Key::KeyW)
    } else if idx == 54 {
        Some(Key::KeyE)
    } else if idx == 55 {
        Some(Key::KeyR)
    } else if idx == 56 {
        Some(Key::KeyT)
    } else if idx == 57 {
        Some(Key::KeyY)
    } else if idx == 58 {
        Some(Key::KeyU)
    } else if idx == 59 {
        Some(Key::KeyI)
    } else if idx == 60 {
        Some(Key::KeyO)
    } else if idx == 61 {
        Some(Key::KeyP)
    } else if idx == 62 {
        Some(Key::LeftBracket)
    } else if idx == 63 {
        Some(Key::RightBracket)
    } else if idx == 64 {
        Some(Key::KeyA)
    } else if idx == 65 {
        Some(Key::KeyS)
    } else if idx == 66 {
        Some(Key::KeyD)
    } else if idx == 67 {
        Some(Key::KeyF)
    } else if idx == 68 {
        Some(Key::KeyG)
    } else if idx == 69 {
        Some(Key::KeyH)
    } else if idx == 70 {
        Some(Key::KeyJ)
    } else if idx == 71 {
        Some(Key::KeyK)
    } else if idx == 72 {
        Some(Key::KeyL)
    } else if idx == 73 {
        Some(Key::SemiColon)
    } else if idx == 74 {
        Some(Key::Quote)
    } else if idx == 75 {
        Some(Key::BackSlash)
    } else if idx == 76 {
        Some(Key::IntlBackslash)
    } else if idx == 77 {
        Some(Key::KeyZ)
    } else if idx == 78 {
        Some(Key::KeyX)
    } else if idx == 79 {
        Some(Key::KeyC)
    } else if idx == 80 {
        Some(Key::KeyV)
    } else if idx == 81 {
        Some(Key::KeyB)
    } else if idx == 82 {
        Some(Key::KeyN)
    } else if idx == 83 {
        Some(Key::KeyM)
    } else if idx == 84 {
        Some(Key::Comma)
    } else if idx == 85 {
        Some(Key::Dot)
    } else if idx == 86 {
        Some(Key::Slash)
    } else if idx == 87 {
        Some(Key::Insert)
    } else if idx == 88 {
        Some(Key::KpReturn)
    } else if idx == 89 {
        Some(Key::KpMinus)
    } else if idx == 90 {
        Some(Key::KpPlus)
    } else if idx == 91 {
        Some(Key::KpMultiply)
    } else if idx == 92 {
        Some(Key::KpDivide)
    } else if idx == 93 {
        Some(Key::Kp0)
    } else if idx == 94 {
        Some(Key::Kp1)
    } else if idx == 95 {
        Some(Key::Kp2)
    } else if idx == 96 {
        Some(Key::Kp3)
    } else if idx == 97 {
        Some(Key::Kp4)
    } else if idx == 98 {
        Some(Key::Kp5)
    } else if idx == 99 {
        Some(Key::Kp6)
    } else if idx == 100 {
        Some(Key::Kp7)
    } else if idx == 101 {
        Some(Key::Kp8)
    } else if idx == 102 {
        Some(Key::Kp9)
    } else if idx == 103 {
        Some(Key::KpDelete)
    } else if idx == 104 {
        Some(Key::Function)
    } else if idx == 105 {
        if payload <= u32::MAX as u64 {
            Some(Key::Unknown(payload as u32))
        } else {
            None
        }
    } else {
        None
    }
}

/// A key's parts decode back to the key itself.
pub proof fn lemma_key_parts_roundtrip(k: Key)
    ensures
        spec_key_from_parts(spec_key_index(k), spec_key_payload(k)) == Some(k),
{
}

/// The serial index of a mouse button.
pub open spec fn spec_button_index(b: Button) -> u64 {
    match b {
        Button::Left => 0,
        Button::Right => 1,
        Button::Middle => 2,
        Button::Unknown(_) => 3,
    }
}

/// The payload word a button carries: the raw code for an unnamed button.
pub open spec fn spec_button_payload(b: Button) -> u64 {
    match b {
        Button::Unknown(raw) => raw as u64,
        _ => 0,
    }
}

/// The button a serial index and payload word stand for.
pub open spec fn spec_button_from_parts(idx: u64, payload: u64) -> Option<Button> {
    if idx == 0 {
        Some(Button::Left)
    } else if idx == 1 {
        Some(Button::Right)
    } else if idx == 2 {
        Some(Button::Middle)
    } else if idx == 3 {
        if payload <= u8::MAX as u64 {
            Some(Button::Unknown(payload as u8))
        } else {
            None
        }
    } else {
        None
    }
}

fn button_index(b: &Button) -> (i: u64)
    ensures
        i == spec_button_index(*b),
{
    match b {
        Button::Left => 0,
        Button::Right => 1,
        Button::Middle => 2,
        Button::Unknown(_) => 3,
    }
}

fn button_payload(b: &Button) -> (p: u64)
    ensures
        p == spec_button_payload(*b),
{
    match b {
        Button::Unknown(raw) => *raw as u64,
        _ => 0,
    }
}

fn button_from_parts(idx: u64, payload: u64) -> (b: Option<Button>)
    ensures
        b == spec_button_from_parts(idx, payload),
{
    if idx == 0 {
        Some(Button::Left)
    } else if idx == 1 {
        Some(Button::Right)
    } else if idx == 2 {
        Some(Button::Middle)
    } else if idx == 3 {
        if payload <= u8::MAX as u64 {
            Some(Button::Unknown(payload as u8))
        } else {
            None
        }
    } else {
        None
    }
}

/// A button's parts decode back to the button itself.
pub proof fn lemma_button_parts_roundtrip(b: Button)
    ensures
        spec_button_from_parts(spec_button_index(b), spec_button_payload(b)) == Some(b),
{
}

/// The tag byte and two payload words an action is encoded as.
pub open spec fn spec_action_repr(a: Action) -> (u8, u64, u64) {
    match a {
        Action::KeyPress(k) => (0, spec_key_index(k), spec_key_payload(k)),
        Action::KeyRelease(k) => (1, spec_key_index(k), spec_key_payload(k)),
        Action::ButtonPress(b) => (2, spec_button_index(b), spec_button_payload(b)),
        Action::ButtonRelease(b) => (3, spec_button_index(b), spec_button_payload(b)),
        Action::MouseMove { x, y } => (4, x, y),
        Action::Wheel { delta_x, delta_y } => (5, delta_x as u64, delta_y as u64),
    }
}

/// The action a tag byte and two payload words stand for.
pub open spec fn spec_action_from_repr(tag: u8, x: u64, y: u64) -> Option<Action> {
    if tag == 0 {
        match spec_key_from_parts(x, y) {
            Some(k) => Some(Action::KeyPress(k)),
            None => None,
        }
    } else if tag == 1 {
        match spec_key_from_parts(x, y) {
            Some(k) => Some(Action::KeyRelease(k)),
            None => None,
        }
    } else if tag == 2 {
        match spec_button_from_parts(x, y) {
            Some(b) => Some(Action::ButtonPress(b)),
            None => None,
        }
    } else if tag == 3 {
        match spec_button_from_parts(x, y) {
            Some(b) => Some(Action::ButtonRelease(b)),
            None => None,
        }
    } else if tag == 4 {
        Some(Action::MouseMove { x, y })
    } else if tag == 5 {
        Some(Action::Wheel { delta_x: x as i64, delta_y: y as i64 })
    } else {
        None
    }
}

fn action_repr(a: &Action) -> (r: (u8, u64, u64))
    ensures
        r == spec_action_repr(*a),
{
    match a {
        Action::KeyPress(k) => (0, key_index(k), key_payload(k)),
        Action::KeyRelease(k) => (1, key_index(k), key_payload(k)),
        Action::ButtonPress(b) => (2, button_index(b), button_payload(b)),
        Action::ButtonRelease(b) => (3, button_index(b), button_payload(b)),
        Action::MouseMove { x, y } => (4, *x, *y),
        Action::Wheel { delta_x, delta_y } => (5, *delta_x as u64, *delta_y as u64),
    }
}

fn action_from_repr(tag: u8, x: u64, y: u64) -> (a: Option<Action>)
    ensures
        a == spec_action_from_repr(tag, x, y),
{
    if tag == 0 {
        match key_from_parts(x, y) {
            Some(k) => Some(Action::KeyPress(k)),
            None => None,
        }
    } else if tag == 1 {
        match key_from_parts(x, y) {
            Some(k) => Some(Action::KeyRelease(k)),
            None => None,
        }
    } else if tag == 2 {
        match button_from_parts(x, y) {
            Some(b) => Some(Action::ButtonPress(b)),
            None => None,
        }
    } else if tag == 3 {
        match button_from_parts(x, y) {
            Some(b) => Some(Action::ButtonRelease(b)),
            None => None,
        }
    } else if tag == 4 {
        Some(Action::MouseMove { x, y })
    } else if tag == 5 {
        Some(Action::Wheel { delta_x: x as i64, delta_y: y as i64 })
    } else {
        None
    }
}

/// An action's representation decodes back to the action itself.
pub proof fn lemma_action_roundtrip(a: Action)
    ensures
        spec_action_from_repr(
            spec_action_repr(a).0,
            spec_action_repr(a).1,
            spec_action_repr(a).2,
        ) == Some(a),
{
    match a {
        Action::KeyPress(k) => lemma_key_parts_roundtrip(k),
        Action::KeyRelease(k) => lemma_key_parts_roundtrip(k),
        Action::ButtonPress(b) => lemma_button_parts_roundtrip(b),
        Action::ButtonRelease(b) => lemma_button_parts_roundtrip(b),
        Action::MouseMove { .. } => {},
        Action::Wheel { delta_x, delta_y } => {
            assert(((delta_x as u64) as i64) == delta_x) by (bit_vector);
            assert(((delta_y as u64) as i64) == delta_y) by (bit_vector);
        },
    }
}

/// The 25 bytes of one record: timestamp, tag, two payload words.
pub open spec fn spec_encode_event(e: InputEvent) -> Seq<u8> {
    spec_u64_le(e.timestamp) + seq![spec_action_repr(e.action).0] + spec_u64_le(
        spec_action_repr(e.action).1,
    ) + spec_u64_le(spec_action_repr(e.action).2)
}

/// The event 25 bytes stand for, if their tag and payloads are valid.
pub open spec fn spec_decode_event(s: Seq<u8>) -> Option<InputEvent>
    recommends
        s.len() == 25,
{
    match spec_action_from_repr(
        s[8],
        spec_u64_of_le(s.subrange(9, 17)),
        spec_u64_of_le(s.subrange(17, 25)),
    ) {
        Some(a) => Some(InputEvent { timestamp: spec_u64_of_le(s.subrange(0, 8)), action: a }),
        None => None,
    }
}

/// One record decodes back to the event it encodes.
pub proof fn lemma_event_roundtrip(e: InputEvent)
    ensures
        spec_encode_event(e).len() == 25,
        spec_decode_event(spec_encode_event(e)) == Some(e),
{
    let s = spec_encode_event(e);
    let tag = spec_action_repr(e.action).0;
    let x = spec_action_repr(e.action).1;
    let y = spec_action_repr(e.action).2;
    assert(s.subrange(0, 8) =~= spec_u64_le(e.timestamp));
    assert(s[8] == tag);
    assert(s.subrange(9, 17) =~= spec_u64_le(x));
    assert(s.subrange(17, 25) =~= spec_u64_le(y));
    lemma_u64_le_roundtrip(e.timestamp);
    lemma_u64_le_roundtrip(x);
    lemma_u64_le_roundtrip(y);
    lemma_action_roundtrip(e.action);
}

/// The records of a buffer, in order.
pub open spec fn spec_encode_events(events: Seq<InputEvent>) -> Seq<u8>
    decreases events.len(),
{
    if events.len() == 0 {
        Seq::empty()
    } else {
        spec_encode_event(events[0]) + spec_encode_events(events.drop_first())
    }
}

/// A whole script: the count header, then the records.
pub open spec fn spec_serialize(events: Seq<InputEvent>) -> Seq<u8> {
    spec_u64_le(events.len() as u64) + spec_encode_events(events)
}

/// `count` records decoded off a byte string that must hold exactly them.
pub open spec fn spec_decode_events(s: Seq<u8>, count: nat) -> Option<Seq<InputEvent>>
    decreases count,
{
    if count == 0 {
        if s.len() == 0 {
            Some(Seq::empty())
        } else {
            None
        }
    } else if s.len() < 25 {
        None
    } else {
        match spec_decode_event(s.take(25)) {
            None => None,
            Some(e) => match spec_decode_events(s.skip(25), (count - 1) as nat) {
                None => None,
                Some(rest) => Some(seq![e] + rest),
            },
        }
    }
}

/// What a script's bytes decode to: the events, or the first reason the
/// bytes are not a script.
pub open spec fn spec_deserialize(s: Seq<u8>) -> Result<Seq<InputEvent>, DecodeError> {
    if s.len() < 8 {
        Err(DecodeError::Truncated)
    } else {
        let count = spec_u64_of_le(s.subrange(0, 8));
        if s.len() - 8 != (count as int) * 25 {
            Err(DecodeError::WrongLength)
        } else {
            match spec_decode_events(s.skip(8), count as nat) {
                Some(events) => Ok(events),
                None => Err(DecodeError::BadRecord),
            }
        }
    }
}

proof fn lemma_encode_events_len(events: Seq<InputEvent>)
    ensures
        spec_encode_events(events).len() == 25 * events.len(),
    decreases events.len(),
{
    if events.len() > 0 {
        lemma_event_roundtrip(events[0]);
        lemma_encode_events_len(events.drop_first());
    }
}

proof fn lemma_encode_events_concat(a: Seq<InputEvent>, b: Seq<InputEvent>)
    ensures
        spec_encode_events(a + b) == spec_encode_events(a) + spec_encode_events(b),
    decreases a.len(),
{
    if a.len() == 0 {
        assert(a + b =~= b);
        assert(spec_encode_events(a) + spec_encode_events(b) =~= spec_encode_events(b));
    } else {
        assert((a + b).len() > 0);
        assert((a + b)[0] == a[0]);
        assert((a + b).drop_first() =~= a.drop_first() + b);
        lemma_encode_events_concat(a.drop_first(), b);
        assert(spec_encode_event(a[0]) + (spec_encode_events(a.drop_first()) + spec_encode_events(
            b,
        )) =~= (spec_encode_event(a[0]) + spec_encode_events(a.drop_first())) + spec_encode_events(
            b,
        ));
    }
}

proof fn lemma_decode_encode_events(events: Seq<InputEvent>)
    ensures
        spec_decode_events(spec_encode_events(events), events.len()) == Some(events),
    decreases events.len(),
{
    if events.len() == 0 {
        assert(spec_encode_events(events).len() == 0);
    } else {
        let enc = spec_encode_events(events);
        lemma_event_roundtrip(events[0]);
        lemma_encode_events_len(events.drop_first());
        assert(enc.take(25) =~= spec_encode_event(events[0]));
        assert(enc.skip(25) =~= spec_encode_events(events.drop_first()));
        lemma_decode_encode_events(events.drop_first());
        assert(seq![events[0]] + events.drop_first() =~= events);
    }
}

/// Round-trip: decoding a serialized buffer yields exactly the original
/// events — for the empty buffer, for buffers with every action variant,
/// for any buffer a machine can hold.
pub proof fn lemma_serialize_roundtrip(events: Seq<InputEvent>)
    requires
        events.len() <= u64::MAX,
    ensures
        spec_deserialize(spec_serialize(events)) == Ok::<Seq<InputEvent>, DecodeError>(events),
{
    let s = spec_serialize(events);
    lemma_encode_events_len(events);
    assert(s.subrange(0, 8) =~= spec_u64_le(events.len() as u64));
    lemma_u64_le_roundtrip(events.len() as u64);
    assert(s.skip(8) =~= spec_encode_events(events));
    lemma_decode_encode_events(events);
}

fn push_event(out: &mut Vec<u8>, e: &InputEvent)
    ensures
        final(out)@ == old(out)@ + spec_encode_event(*e),
{
    push_u64_le(out, e.timestamp);
    let (tag, x, y) = action_repr(&e.action);
    out.push(tag);
    push_u64_le(out, x);
    push_u64_le(out, y);
    assert(final(out)@ == old(out)@ + spec_encode_event(*e));
}

/// Encodes a buffer of events as a script: deterministic and total.
pub fn serialize(events: &Vec<InputEvent>) -> (out: Vec<u8>)
    ensures
        out@ == spec_serialize(events@),
{
    let mut out: Vec<u8> = Vec::new();
    push_u64_le(&mut out, events.len() as u64);
    let mut i: usize = 0;
    while i < events.len()
        invariant
            i <= events@.len(),
            out@ == spec_u64_le(events@.len() as u64) + spec_encode_events(
                events@.take(i as int),
            ),
        decreases events@.len() - i,
    {
        push_event(&mut out, &events[i]);
        proof {
            let single = seq![events@[i as int]];
            assert(events@.take(i as int + 1) =~= events@.take(i as int) + single);
            lemma_encode_events_concat(events@.take(i as int), single);
            assert(single.drop_first().len() == 0);
            assert(spec_encode_events(single.drop_first()) == Seq::<u8>::empty());
            assert(single[0] == events@[i as int]);
            assert(spec_encode_events(single) == spec_encode_event(events@[i as int])
                + Seq::<u8>::empty());
            assert(spec_encode_event(events@[i as int]) + Seq::<u8>::empty() =~= spec_encode_event(
                events@[i as int],
            ));
            assert(out@ =~= spec_u64_le(events@.len() as u64) + spec_encode_events(
                events@.take(i as int + 1),
            ));
        }
        i = i + 1;
    }
    proof {
        assert(events@.take(events@.len() as int) =~= events@);
    }
    out
}

fn decode_event_at(bytes: &Vec<u8>, off: usize) -> (r: Option<InputEvent>)
    requires
        off + 25 <= bytes@.len(),
    ensures
        r == spec_decode_event(bytes@.subrange(off as int, off as int + 25)),
{
    let _len = bytes.len();
    let ts = read_u64_le(bytes, off);
    let tag = bytes[off + 8];
    let x = read_u64_le(bytes, off + 9);
    let y = read_u64_le(bytes, off + 17);
    proof {
        let s = bytes@.subrange(off as int, off as int + 25);
        assert(s.subrange(0, 8) =~= bytes@.subrange(off as int, off as int + 8));
        assert(s[8] == bytes@[off as int + 8]);
        assert(s.subrange(9, 17) =~= bytes@.subrange(off as int + 9, off as int + 17));
        assert(s.subrange(17, 25) =~= bytes@.subrange(off as int + 17, off as int + 25));
    }
    match action_from_repr(tag, x, y) {
        Some(a) => Some(InputEvent { timestamp: ts, action: a }),
        None => None,
    }
}

/// Decodes a script, or reports why the bytes are not one.  Nothing is
/// decoded partially: the caller gets the whole buffer or an error.
pub fn deserialize(bytes: &Vec<u8>) -> (r: Result<Vec<InputEvent>, DecodeError>)
    ensures
        r is Ok <==> spec_deserialize(bytes@) is Ok,
        r matches Ok(v) ==> spec_deserialize(bytes@) == Ok::<Seq<InputEvent>, DecodeError>(v@),
        r matches Err(e) ==> spec_deserialize(bytes@) == Err::<Seq<InputEvent>, DecodeError>(e),
{
    let len = bytes.len();
    if len < 8 {
        return Err(DecodeError::Truncated);
    }
    let count64 = read_u64_le(bytes, 0);
    let body_len = len - 8;
    if count64 > u64::MAX / 25 {
        return Err(DecodeError::WrongLength);
    }
    let need = count64 * 25;
    if (body_len as u64) != need {
        return Err(DecodeError::WrongLength);
    }
    let count = count64 as usize;
    let mut result: Vec<InputEvent> = Vec::new();
    let mut i: usize = 0;
    while i < count
        invariant
            i <= count,
            count == count64 as int,
            bytes@.len() <= usize::MAX,
            bytes@.len() == 8 + count * 25,
            count64 == spec_u64_of_le(bytes@.subrange(0, 8)),
            result@.len() == i as int,
            spec_decode_events(bytes@.skip(8 + 25 * (i as int)), (count - i) as nat) matches Some(
                rest,
            ) ==> spec_decode_events(bytes@.skip(8), count as nat) == Some(result@ + rest),
            spec_decode_events(bytes@.skip(8 + 25 * (i as int)), (count - i) as nat) is None
                ==> spec_decode_events(bytes@.skip(8), count as nat) is None,
        decreases count - i,
    {
        let off = 8 + i * 25;
        let decoded = decode_event_at(bytes, off);
        proof {
            let t = bytes@.skip(8 + 25 * (i as int));
            assert(t.len() == (count - i) * 25);
            assert(t.take(25) =~= bytes@.subrange(off as int, off as int + 25));
            assert(t.skip(25) =~= bytes@.skip(8 + 25 * (i as int + 1)));
        }
        match decoded {
            None => {
                proof {
                    let t = bytes@.skip(8 + 25 * (i as int));
                    assert(spec_decode_events(t, (count - i) as nat) is None);
                    assert(spec_deserialize(bytes@) == Err::<Seq<InputEvent>, DecodeError>(
                        DecodeError::BadRecord,
                    ));
                }
                return Err(DecodeError::BadRecord);
            },
            Some(e) => {
                result.push(e);
                proof {
                    let t = bytes@.skip(8 + 25 * (i as int));
                    let t2 = bytes@.skip(8 + 25 * (i as int + 1));
                    match spec_decode_events(t2, (count - i - 1) as nat) {
                        Some(rest2) => {
                            assert(spec_decode_events(t, (count - i) as nat) == Some(
                                seq![e] + rest2,
                            ));
                            assert(result@ + rest2 =~= result@.drop_last() + (seq![e] + rest2));
                        },
                        None => {},
                    }
                }
            },
        }
        i = i + 1;
    }
    proof {
        let t = bytes@.skip(8 + 25 * (count as int));
        assert(t.len() == 0);
        assert(t =~= Seq::<u8>::empty());
        assert(spec_decode_events(t, 0) == Some(Seq::<InputEvent>::empty()));
        assert(result@ + Seq::<InputEvent>::empty() =~= result@);
    }
    Ok(result)
}

impl Engine {
    /// Serializes a snapshot of the current record buffer.  A host that
    /// saves from a modal dialog sets `suspend_capture` for the duration,
    /// so the dispatcher cannot disturb the engine while the file is open.
    pub fn save_script(&self) -> (out: Vec<u8>)
        ensures
            out@ == spec_serialize(self.buffer@),
    {
        serialize(&self.buffer)
    }

    /// Replaces the record buffer wholesale with a decoded script.  The
    /// bytes are decoded into a temporary buffer first: on any decode
    /// failure the error is returned and the engine is left untouched.
    pub fn load_script(&mut self, bytes: &Vec<u8>) -> (r: Result<(), DecodeError>)
        ensures
            r is Ok <==> spec_deserialize(bytes@) is Ok,
            r is Ok ==> spec_deserialize(bytes@) == Ok::<Seq<InputEvent>, DecodeError>(
                final(self).buffer@,
            ) && final(self).mode == old(self).mode && Engine::config_unchanged(
                old(self),
                final(self),
            ),
            r matches Err(e) ==> *final(self) == *old(self) && spec_deserialize(bytes@) == Err::<
                Seq<InputEvent>,
                DecodeError,
            >(e),
            old(self).wf() ==> final(self).wf(),
    {
        match deserialize(bytes) {
            Ok(events) => {
                self.buffer = events;
                Ok(())
            },
            Err(e) => Err(e),
        }
    }
}

} // verus!
