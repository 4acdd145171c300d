//! Key codes and the packed key-task code.
//!
//! A key combination is a base key (letter, digit, function key,
//! punctuation, navigation key) together with an optional modifier key
//! (shift/ctrl/alt or a left/right variant). The combination is packed
//! into a single `u32`, the [`KeyTaskCode`]: the modifier ordinal shifted
//! left by eight, or-ed with the base ordinal, which always fits below the
//! eighth bit; a zero in the modifier part means "no modifier". Decoding
//! therefore inverts encoding exactly. The registry uses the packed code
//! as its binding key. A code of `0` is the reserved "unset" value: no
//! recognized base key produces it, since every base ordinal is at least
//! `0x20`.

use vstd::prelude::*;

verus! {

/// The packed integer identifying a (base key, modifier key) combination.
pub type KeyTaskCode = u32;

/// Base keys: letters, digits, function keys, punctuation and navigation keys.
#[derive(Debug, Clone, Copy, PartialEq, Eq, Structural)]
pub enum KeyCode {
    Space,
    PageUp,
    PageDown,
    End,
    Home,
    LeftArrow,
    UpArrow,
    RightArrow,
    DownArrow,
    Select,
    Print,
    Snapshot,
    Insert,
    Delete,
    Semicolon,
    Equal,
    Comma,
    Minus,
    ForwardSlash,
    Accent,
    OpenBracket,
    Backslash,
    CloseBracket,
    Quote,
    Num0,
    Num1,
    Num2,
    Num3,
    Num4,
    Num5,
    Num6,
    Num7,
    Num8,
    Num9,
    A,
    B,
    C,
    D,
    E,
    F,
    G,
    H,
    I,
    J,
    K,
    L,
    M,
    N,
    O,
    P,
    Q,
    R,
    S,
    T,
    U,
    V,
    W,
    X,
    Y,
    Z,
    Numpad0,
    Numpad1,
    Numpad2,
    Numpad3,
    Numpad4,
    Numpad5,
    Numpad6,
    Numpad7,
    Numpad8,
    Numpad9,
    Multiply,
    Add,
    Separator,
    Subtract,
    Decimal,
    Divide,
    F1,
    F2,
    F3,
    F4,
    F5,
    F6,
    F7,
    F8,
    F9,
    F10,
    F11,
    F12,
    F13,
    F14,
    F15,
    F16,
    F17,
    F18,
    F19,
    F20,
    F21,
    F22,
    F23,
    F24,
    NumLock,
    ScrollLock,
}

impl KeyCode {
    /// The virtual-key ordinal of this base key.
    pub open spec fn spec_ordinal(self) -> u32 {
        match self {
            KeyCode::Space => 0x20,
            KeyCode::PageUp => 0x21,
            KeyCode::PageDown => 0x22,
            KeyCode::End => 0x23,
            KeyCode::Home => 0x24,
            KeyCode::LeftArrow => 0x25,
            KeyCode::UpArrow => 0x26,
            KeyCode::RightArrow => 0x27,
            KeyCode::DownArrow => 0x28,
            KeyCode::Select => 0x29,
            KeyCode::Print => 0x2A,
            KeyCode::Snapshot => 0x2C,
            KeyCode::Insert => 0x2D,
            KeyCode::Delete => 0x2E,
            KeyCode::Semicolon => 0xBA,
            KeyCode::Equal => 0xBB,
            KeyCode::Comma => 0xBC,
            KeyCode::Minus => 0xBD,
            KeyCode::ForwardSlash => 0xBF,
            KeyCode::Accent => 0xC0,
            KeyCode::OpenBracket => 0xDB,
            KeyCode::Backslash => 0xDC,
            KeyCode::CloseBracket => 0xDD,
            KeyCode::Quote => 0xDE,
            KeyCode::Num0 => 0x30,
            KeyCode::Num1 => 0x31,
            KeyCode::Num2 => 0x32,
            KeyCode::Num3 => 0x33,
            KeyCode::Num4 => 0x34,
            KeyCode::Num5 => 0x35,
            KeyCode::Num6 => 0x36,
            KeyCode::Num7 => 0x37,
            KeyCode::Num8 => 0x38,
            KeyCode::Num9 => 0x39,
            KeyCode::A => 0x41,
            KeyCode::B => 0x42,
            KeyCode::C => 0x43,
            KeyCode::D => 0x44,
            KeyCode::E => 0x45,
            KeyCode::F => 0x46,
            KeyCode::G => 0x47,
            KeyCode::H => 0x48,
            KeyCode::I => 0x49,
            KeyCode::J => 0x4A,
            KeyCode::K => 0x4B,
            KeyCode::L => 0x4C,
            KeyCode::M => 0x4D,
            KeyCode::N => 0x4E,
            KeyCode::O => 0x4F,
            KeyCode::P => 0x50,
            KeyCode::Q => 0x51,
            KeyCode::R => 0x52,
            KeyCode::S => 0x53,
            KeyCode::T => 0x54,
            KeyCode::U => 0x55,
            KeyCode::V => 0x56,
            KeyCode::W => 0x57,
            KeyCode::X => 0x58,
            KeyCode::Y => 0x59,
            KeyCode::Z => 0x5A,
            KeyCode::Numpad0 => 0x60,
            KeyCode::Numpad1 => 0x61,
            KeyCode::Numpad2 => 0x62,
            KeyCode::Numpad3 => 0x63,
            KeyCode::Numpad4 => 0x64,
            KeyCode::Numpad5 => 0x65,
            KeyCode::Numpad6 => 0x66,
            KeyCode::Numpad7 => 0x67,
            KeyCode::Numpad8 => 0x68,
            KeyCode::Numpad9 => 0x69,
            KeyCode::Multiply => 0x6A,
            KeyCode::Add => 0x6B,
            KeyCode::Separator => 0x6C,
            KeyCode::Subtract => 0x6D,
            KeyCode::Decimal => 0x6E,
            KeyCode::Divide => 0x6F,
            KeyCode::F1 => 0x70,
            KeyCode::F2 => 0x71,
            KeyCode::F3 => 0x72,
            KeyCode::F4 => 0x73,
            KeyCode::F5 => 0x74,
            KeyCode::F6 => 0x75,
            KeyCode::F7 => 0x76,
            KeyCode::F8 => 0x77,
            KeyCode::F9 => 0x78,
            KeyCode::F10 => 0x79,
            KeyCode::F11 => 0x7A,
            KeyCode::F12 => 0x7B,
            KeyCode::F13 => 0x7C,
            KeyCode::F14 => 0x7D,
            KeyCode::F15 => 0x7E,
            KeyCode::F16 => 0x7F,
            KeyCode::F17 => 0x80,
            KeyCode::F18 => 0x81,
            KeyCode::F19 => 0x82,
            KeyCode::F20 => 0x83,
            KeyCode::F21 => 0x84,
            KeyCode::F22 => 0x85,
            KeyCode::F23 => 0x86,
            KeyCode::F24 => 0x87,
            KeyCode::NumLock => 0x90,
            KeyCode::ScrollLock => 0x91,
        }
    }

    pub fn ordinal(&self) -> (r: u32)
        ensures
            r == self.spec_ordinal(),
    {
        match self {
            KeyCode::Space => 0x20,
            KeyCode::PageUp => 0x21,
            KeyCode::PageDown => 0x22,
            KeyCode::End => 0x23,
            KeyCode::Home => 0x24,
            KeyCode::LeftArrow => 0x25,
            KeyCode::UpArrow => 0x26,
            KeyCode::RightArrow => 0x27,
            KeyCode::DownArrow => 0x28,
            KeyCode::Select => 0x29,
            KeyCode::Print => 0x2A,
            KeyCode::Snapshot => 0x2C,
            KeyCode::Insert => 0x2D,
            KeyCode::Delete => 0x2E,
            KeyCode::Semicolon => 0xBA,
            KeyCode::Equal => 0xBB,
            KeyCode::Comma => 0xBC,
            KeyCode::Minus => 0xBD,
            KeyCode::ForwardSlash => 0xBF,
            KeyCode::Accent => 0xC0,
            KeyCode::OpenBracket => 0xDB,
            KeyCode::Backslash => 0xDC,
            KeyCode::CloseBracket => 0xDD,
            KeyCode::Quote => 0xDE,
            KeyCode::Num0 => 0x30,
            KeyCode::Num1 => 0x31,
            KeyCode::Num2 => 0x32,
            KeyCode::Num3 => 0x33,
            KeyCode::Num4 => 0x34,
            KeyCode::Num5 => 0x35,
            KeyCode::Num6 => 0x36,
            KeyCode::Num7 => 0x37,
            KeyCode::Num8 => 0x38,
            KeyCode::Num9 => 0x39,
            KeyCode::A => 0x41,
            KeyCode::B => 0x42,
            KeyCode::C => 0x43,
            KeyCode::D => 0x44,
            KeyCode::E => 0x45,
            KeyCode::F => 0x46,
            KeyCode::G => 0x47,
            KeyCode::H => 0x48,
            KeyCode::I => 0x49,
            KeyCode::J => 0x4A,
            KeyCode::K => 0x4B,
            KeyCode::L => 0x4C,
            KeyCode::M => 0x4D,
            KeyCode::N => 0x4E,
            KeyCode::O => 0x4F,
            KeyCode::P => 0x50,
            KeyCode::Q => 0x51,
            KeyCode::R => 0x52,
            KeyCode::S => 0x53,
            KeyCode::T => 0x54,
            KeyCode::U => 0x55,
            KeyCode::V => 0x56,
            KeyCode::W => 0x57,
            KeyCode::X => 0x58,
            KeyCode::Y => 0x59,
            KeyCode::Z => 0x5A,
            KeyCode::Numpad0 => 0x60,
            KeyCode::Numpad1 => 0x61,
            KeyCode::Numpad2 => 0x62,
            KeyCode::Numpad3 => 0x63,
            KeyCode::Numpad4 => 0x64,
            KeyCode::Numpad5 => 0x65,
            KeyCode::Numpad6 => 0x66,
            KeyCode::Numpad7 => 0x67,
            KeyCode::Numpad8 => 0x68,
            KeyCode::Numpad9 => 0x69,
            KeyCode::Multiply => 0x6A,
            KeyCode::Add => 0x6B,
            KeyCode::Separator => 0x6C,
            KeyCode::Subtract => 0x6D,
            KeyCode::Decimal => 0x6E,
            KeyCode::Divide => 0x6F,
            KeyCode::F1 => 0x70,
            KeyCode::F2 => 0x71,
            KeyCode::F3 => 0x72,
            KeyCode::F4 => 0x73,
            KeyCode::F5 => 0x74,
            KeyCode::F6 => 0x75,
            KeyCode::F7 => 0x76,
            KeyCode::F8 => 0x77,
            KeyCode::F9 => 0x78,
            KeyCode::F10 => 0x79,
            KeyCode::F11 => 0x7A,
            KeyCode::F12 => 0x7B,
            KeyCode::F13 => 0x7C,
            KeyCode::F14 => 0x7D,
            KeyCode::F15 => 0x7E,
            KeyCode::F16 => 0x7F,
            KeyCode::F17 => 0x80,
            KeyCode::F18 => 0x81,
            KeyCode::F19 => 0x82,
            KeyCode::F20 => 0x83,
            KeyCode::F21 => 0x84,
            KeyCode::F22 => 0x85,
            KeyCode::F23 => 0x86,
            KeyCode::F24 => 0x87,
            KeyCode::NumLock => 0x90,
            KeyCode::ScrollLock => 0x91,
        }
    }

    /// The base key recognized under a virtual-key ordinal, if any.
    pub open spec fn spec_from(value: u32) -> Option<KeyCode> {
        if value == 0x20 {
            Some(KeyCode::Space)
        } else if value == 0x21 {
            Some(KeyCode::PageUp)
        } else if value == 0x22 {
            Some(KeyCode::PageDown)
        } else if value == 0x23 {
            Some(KeyCode::End)
        } else if value == 0x24 {
            Some(KeyCode::Home)
        } else if value == 0x25 {
            Some(KeyCode::LeftArrow)
        } else if value == 0x26 {
            Some(KeyCode::UpArrow)
        } else if value == 0x27 {
            Some(KeyCode::RightArrow)
        } else if value == 0x28 {
            Some(KeyCode::DownArrow)
        } else if value == 0x29 {
            Some(KeyCode::Select)
        } else if value == 0x2A {
            Some(KeyCode::Print)
        } else if value == 0x2C {
            Some(KeyCode::Snapshot)
        } else if value == 0x2D {
            Some(KeyCode::Insert)
        } else if value == 0x2E {
            Some(KeyCode::Delete)
        } else if value == 0xBA {
            Some(KeyCode::Semicolon)
        } else if value == 0xBB {
            Some(KeyCode::Equal)
        } else if value == 0xBC {
            Some(KeyCode::Comma)
        } else if value == 0xBD {
            Some(KeyCode::Minus)
        } else if value == 0xBF {
            Some(KeyCode::ForwardSlash)
        } else if value == 0xC0 {
            Some(KeyCode::Accent)
        } else if value == 0xDB {
            Some(KeyCode::OpenBracket)
        } else if value == 0xDC {
            Some(KeyCode::Backslash)
        } else if value == 0xDD {
            Some(KeyCode::CloseBracket)
        } else if value == 0xDE {
            Some(KeyCode::Quote)
        } else if value == 0x30 {
            Some(KeyCode::Num0)
        } else if value == 0x31 {
            Some(KeyCode::Num1)
        } else if value == 0x32 {
            Some(KeyCode::Num2)
        } else if value == 0x33 {
            Some(KeyCode::Num3)
        } else if value == 0x34 {
            Some(KeyCode::Num4)
        } else if value == 0x35 {
            Some(KeyCode::Num5)
        } else if value == 0x36 {
            Some(KeyCode::Num6)
        } else if value == 0x37 {
            Some(KeyCode::Num7)
        } else if value == 0x38 {
            Some(KeyCode::Num8)
        } else if value == 0x39 {
            Some(KeyCode::Num9)
        } else if value == 0x41 {
            Some(KeyCode::A)
        } else if value == 0x42 {
            Some(KeyCode::B)
        } else if value == 0x43 {
            Some(KeyCode::C)
        } else if value == 0x44 {
            Some(KeyCode::D)
        } else if value == 0x45 {
            Some(KeyCode::E)
        } else if value == 0x46 {
            Some(KeyCode::F)
        } else if value == 0x47 {
            Some(KeyCode::G)
        } else if value == 0x48 {
            Some(KeyCode::H)
        } else if value == 0x49 {
            Some(KeyCode::I)
        } else if value == 0x4A {
            Some(KeyCode::J)
        } else if value == 0x4B {
            Some(KeyCode::K)
        } else if value == 0x4C {
            Some(KeyCode::L)
        } else if value == 0x4D {
            Some(KeyCode::M)
        } else if value == 0x4E {
            Some(KeyCode::N)
        } else if value == 0x4F {
            Some(KeyCode::O)
        } else if value == 0x50 {
            Some(KeyCode::P)
        } else if value == 0x51 {
            Some(KeyCode::Q)
        } else if value == 0x52 {
            Some(KeyCode::R)
        } else if value == 0x53 {
            Some(KeyCode::S)
        } else if value == 0x54 {
            Some(KeyCode::T)
        } else if value == 0x55 {
            Some(KeyCode::U)
        } else if value == 0x56 {
            Some(KeyCode::V)
        } else if value == 0x57 {
            Some(KeyCode::W)
        } else if value == 0x58 {
            Some(KeyCode::X)
        } else if value == 0x59 {
            Some(KeyCode::Y)
        } else if value == 0x5A {
            Some(KeyCode::Z)
        } else if value == 0x60 {
            Some(KeyCode::Numpad0)
        } else if value == 0x61 {
            Some(KeyCode::Numpad1)
        } else if value == 0x62 {
            Some(KeyCode::Numpad2)
        } else if value == 0x63 {
            Some(KeyCode::Numpad3)
        } else if value == 0x64 {
            Some(KeyCode::Numpad4)
        } else if value == 0x65 {
            Some(KeyCode::Numpad5)
        } else if value == 0x66 {
            Some(KeyCode::Numpad6)
        } else if value == 0x67 {
            Some(KeyCode::Numpad7)
        } else if value == 0x68 {
            Some(KeyCode::Numpad8)
        } else if value == 0x69 {
            Some(KeyCode::Numpad9)
        } else if value == 0x6A {
            Some(KeyCode::Multiply)
        } else if value == 0x6B {
            Some(KeyCode::Add)
        } else if value == 0x6C {
            Some(KeyCode::Separator)
        } else if value == 0x6D {
            Some(KeyCode::Subtract)
        } else if value == 0x6E {
            Some(KeyCode::Decimal)
        } else if value == 0x6F {
            Some(KeyCode::Divide)
        } else if value == 0x70 {
            Some(KeyCode::F1)
        } else if value == 0x71 {
            Some(KeyCode::F2)
        } else if value == 0x72 {
            Some(KeyCode::F3)
        } else if value == 0x73 {
            Some(KeyCode::F4)
        } else if value == 0x74 {
            Some(KeyCode::F5)
        } else if value == 0x75 {
            Some(KeyCode::F6)
        } else if value == 0x76 {
            Some(KeyCode::F7)
        } else if value == 0x77 {
            Some(KeyCode::F8)
        } else if value == 0x78 {
            Some(KeyCode::F9)
        } else if value == 0x79 {
            Some(KeyCode::F10)
        } else if value == 0x7A {
            Some(KeyCode::F11)
        } else if value == 0x7B {
            Some(KeyCode::F12)
        } else if value == 0x7C {
            Some(KeyCode::F13)
        } else if value == 0x7D {
            Some(KeyCode::F14)
        } else if value == 0x7E {
            Some(KeyCode::F15)
        } else if value == 0x7F {
            Some(KeyCode::F16)
        } else if value == 0x80 {
            Some(KeyCode::F17)
        } else if value == 0x81 {
            Some(KeyCode::F18)
        } else if value == 0x82 {
            Some(KeyCode::F19)
        } else if value == 0x83 {
            Some(KeyCode::F20)
        } else if value == 0x84 {
            Some(KeyCode::F21)
        } else if value == 0x85 {
            Some(KeyCode::F22)
        } else if value == 0x86 {
            Some(KeyCode::F23)
        } else if value == 0x87 {
            Some(KeyCode::F24)
        } else if value == 0x90 {
            Some(KeyCode::NumLock)
        } else if value == 0x91 {
            Some(KeyCode::ScrollLock)
        } else {
            None
        }
    }

    pub fn try_from(value: u32) -> (r: Option<KeyCode>)
        ensures
            r == KeyCode::spec_from(value),
    {
        match value {
            0x20 => Some(KeyCode::Space),
            0x21 => Some(KeyCode::PageUp),
            0x22 => Some(KeyCode::PageDown),
            0x23 => Some(KeyCode::End),
            0x24 => Some(KeyCode::Home),
            0x25 => Some(KeyCode::LeftArrow),
            0x26 => Some(KeyCode::UpArrow),
            0x27 => Some(KeyCode::RightArrow),
            0x28 => Some(KeyCode::DownArrow),
            0x29 => Some(KeyCode::Select),
            0x2A => Some(KeyCode::Print),
            0x2C => Some(KeyCode::Snapshot),
            0x2D => Some(KeyCode::Insert),
            0x2E => Some(KeyCode::Delete),
            0xBA => Some(KeyCode::Semicolon),
            0xBB => Some(KeyCode::Equal),
            0xBC => Some(KeyCode::Comma),
            0xBD => Some(KeyCode::Minus),
            0xBF => Some(KeyCode::ForwardSlash),
            0xC0 => Some(KeyCode::Accent),
            0xDB => Some(KeyCode::OpenBracket),
            0xDC => Some(KeyCode::Backslash),
            0xDD => Some(KeyCode::CloseBracket),
            0xDE => Some(KeyCode::Quote),
            0x30 => Some(KeyCode::Num0),
            0x31 => Some(KeyCode::Num1),
            0x32 => Some(KeyCode::Num2),
            0x33 => Some(KeyCode::Num3),
            0x34 => Some(KeyCode::Num4),
            0x35 => Some(KeyCode::Num5),
            0x36 => Some(KeyCode::Num6),
            0x37 => Some(KeyCode::Num7),
            0x38 => Some(KeyCode::Num8),
            0x39 => Some(KeyCode::Num9),
            0x41 => Some(KeyCode::A),
            0x42 => Some(KeyCode::B),
            0x43 => Some(KeyCode::C),
            0x44 => Some(KeyCode::D),
            0x45 => Some(KeyCode::E),
            0x46 => Some(KeyCode::F),
            0x47 => Some(KeyCode::G),
            0x48 => Some(KeyCode::H),
            0x49 => Some(KeyCode::I),
            0x4A => Some(KeyCode::J),
            0x4B => Some(KeyCode::K),
            0x4C => Some(KeyCode::L),
            0x4D => Some(KeyCode::M),
            0x4E => Some(KeyCode::N),
            0x4F => Some(KeyCode::O),
            0x50 => Some(KeyCode::P),
            0x51 => Some(KeyCode::Q),
            0x52 => Some(KeyCode::R),
            0x53 => Some(KeyCode::S),
            0x54 => Some(KeyCode::T),
            0x55 => Some(KeyCode::U),
            0x56 => Some(KeyCode::V),
            0x57 => Some(KeyCode::W),
            0x58 => Some(KeyCode::X),
            0x59 => Some(KeyCode::Y),
            0x5A => Some(KeyCode::Z),
            0x60 => Some(KeyCode::Numpad0),
            0x61 => Some(KeyCode::Numpad1),
            0x62 => Some(KeyCode::Numpad2),
            0x63 => Some(KeyCode::Numpad3),
            0x64 => Some(KeyCode::Numpad4),
            0x65 => Some(KeyCode::Numpad5),
            0x66 => Some(KeyCode::Numpad6),
            0x67 => Some(KeyCode::Numpad7),
            0x68 => Some(KeyCode::Numpad8),
            0x69 => Some(KeyCode::Numpad9),
            0x6A => Some(KeyCode::Multiply),
            0x6B => Some(KeyCode::Add),
            0x6C => Some(KeyCode::Separator),
            0x6D => Some(KeyCode::Subtract),
            0x6E => Some(KeyCode::Decimal),
            0x6F => Some(KeyCode::Divide),
            0x70 => Some(KeyCode::F1),
            0x71 => Some(KeyCode::F2),
            0x72 => Some(KeyCode::F3),
            0x73 => Some(KeyCode::F4),
            0x74 => Some(KeyCode::F5),
            0x75 => Some(KeyCode::F6),
            0x76 => Some(KeyCode::F7),
            0x77 => Some(KeyCode::F8),
            0x78 => Some(KeyCode::F9),
            0x79 => Some(KeyCode::F10),
            0x7A => Some(KeyCode::F11),
            0x7B => Some(KeyCode::F12),
            0x7C => Some(KeyCode::F13),
            0x7D => Some(KeyCode::F14),
            0x7E => Some(KeyCode::F15),
            0x7F => Some(KeyCode::F16),
            0x80 => Some(KeyCode::F17),
            0x81 => Some(KeyCode::F18),
            0x82 => Some(KeyCode::F19),
            0x83 => Some(KeyCode::F20),
            0x84 => Some(KeyCode::F21),
            0x85 => Some(KeyCode::F22),
            0x86 => Some(KeyCode::F23),
            0x87 => Some(KeyCode::F24),
            0x90 => Some(KeyCode::NumLock),
            0x91 => Some(KeyCode::ScrollLock),
            _ => None,
        }
    }
}

/// Modifier keys: shift/ctrl/alt and their left/right variants.
#[derive(Debug, Clone, Copy, PartialEq, Eq, Structural)]
pub enum SysKeyCode {
    Shift,
    Ctrl,
    Alt,
    LShift,
    RShift,
    LCtrl,
    RCtrl,
    LAlt,
    RAlt,
}

impl SysKeyCode {
    /// The virtual-key ordinal of this modifier key.
    pub open spec fn spec_ordinal(self) -> u32 {
        match self {
            SysKeyCode::Shift => 0x10,
            SysKeyCode::Ctrl => 0x11,
            SysKeyCode::Alt => 0x12,
            SysKeyCode::LShift => 0xA0,
            SysKeyCode::RShift => 0xA1,
            SysKeyCode::LCtrl => 0xA2,
            SysKeyCode::RCtrl => 0xA3,
            SysKeyCode::LAlt => 0xA4,
            SysKeyCode::RAlt => 0xA5,
        }
    }

    pub fn ordinal(&self) -> (r: u32)
        ensures
            r == self.spec_ordinal(),
    {
        match self {
            SysKeyCode::Shift => 0x10,
            SysKeyCode::Ctrl => 0x11,
            SysKeyCode::Alt => 0x12,
            SysKeyCode::LShift => 0xA0,
            SysKeyCode::RShift => 0xA1,
            SysKeyCode::LCtrl => 0xA2,
            SysKeyCode::RCtrl => 0xA3,
            SysKeyCode::LAlt => 0xA4,
            SysKeyCode::RAlt => 0xA5,
        }
    }

    /// The modifier key recognized under a virtual-key ordinal, if any.
    pub open spec fn spec_from(value: u32) -> Option<SysKeyCode> {
        if value == 0x10 {
            Some(SysKeyCode::Shift)
        } else if value == 0x11 {
            Some(SysKeyCode::Ctrl)
        } else if value == 0x12 {
            Some(SysKeyCode::Alt)
        } else if value == 0xA0 {
            Some(SysKeyCode::LShift)
        } else if value == 0xA1 {
            Some(SysKeyCode::RShift)
        } else if value == 0xA2 {
            Some(SysKeyCode::LCtrl)
        } else if value == 0xA3 {
            Some(SysKeyCode::RCtrl)
        } else if value == 0xA4 {
            Some(SysKeyCode::LAlt)
        } else if value == 0xA5 {
            Some(SysKeyCode::RAlt)
        } else {
            None
        }
    }

    pub fn try_from(value: u32) -> (r: Option<SysKeyCode>)
        ensures
            r == SysKeyCode::spec_from(value),
    {
        match value {
            0x10 => Some(SysKeyCode::Shift),
            0x11 => Some(SysKeyCode::Ctrl),
            0x12 => Some(SysKeyCode::Alt),
            0xA0 => Some(SysKeyCode::LShift),
            0xA1 => Some(SysKeyCode::RShift),
            0xA2 => Some(SysKeyCode::LCtrl),
            0xA3 => Some(SysKeyCode::RCtrl),
            0xA4 => Some(SysKeyCode::LAlt),
            0xA5 => Some(SysKeyCode::RAlt),
            _ => None,
        }
    }
}

/// Every recognized base ordinal lies in `[0x20, 0xDE]`; in particular it
/// is never zero, which keeps the packed code of a present base key
/// away from the reserved value `0`.
pub proof fn lemma_key_ordinal_range(k: KeyCode)
    ensures
        0x20 <= k.spec_ordinal() <= 0xDE,
{
}

/// Every recognized modifier ordinal lies in `[0x10, 0xA5]`.
pub proof fn lemma_sys_key_ordinal_range(s: SysKeyCode)
    ensures
        0x10 <= s.spec_ordinal() <= 0xA5,
{
}

/// A base key is recognized back from its own ordinal.
pub proof fn lemma_key_from_ordinal(k: KeyCode)
    ensures
        KeyCode::spec_from(k.spec_ordinal()) == Some(k),
{
}

/// A modifier key is recognized back from its own ordinal.
pub proof fn lemma_sys_key_from_ordinal(s: SysKeyCode)
    ensures
        SysKeyCode::spec_from(s.spec_ordinal()) == Some(s),
{
}

/// The failure of decoding a packed code or a raw pair of ordinals.
#[derive(Debug, Clone, Copy, PartialEq, Eq, Structural)]
pub enum KeyTaskError {
    InvalidKeyCombination,
}

/// The currently observed key combination: an optional base key and an
/// optional modifier key, each independently absent.
#[derive(Debug, Clone, Copy)]
pub struct KeyTask {
    pub key: Option<KeyCode>,
    pub sys_key: Option<SysKeyCode>,
}

impl Default for KeyTask {
    /// The empty combination: nothing observed.
    fn default() -> (r: KeyTask)
        ensures
            r.key is None,
            r.sys_key is None,
    {
        KeyTask { key: None, sys_key: None }
    }
}

impl KeyTask {
    /// The packed code of this combination: the modifier ordinal (or `0`
    /// when no modifier is held) shifted left by eight, or-ed with the
    /// base ordinal; `0` when no base key is held.
    pub open spec fn spec_code(self) -> u32 {
        match self.key {
            None => 0,
            Some(k) => (match self.sys_key {
                None => 0u32,
                Some(s) => s.spec_ordinal(),
            } << 8) | k.spec_ordinal(),
        }
    }

    /// The combination a packed code names: the low eight bits must carry
    /// a recognized base ordinal, and the bits above them a recognized
    /// modifier ordinal, or zero for "no modifier".
    pub open spec fn spec_decode(key_code: u32) -> Result<KeyTask, KeyTaskError> {
        let base = key_code & 0xFF;
        let sys = key_code >> 8;
        match KeyCode::spec_from(base) {
            None => Err(KeyTaskError::InvalidKeyCombination),
            Some(k) => if sys == 0 {
                Ok(KeyTask { key: Some(k), sys_key: None })
            } else {
                match SysKeyCode::spec_from(sys) {
                    Some(m) => Ok(KeyTask { key: Some(k), sys_key: Some(m) }),
                    None => Err(KeyTaskError::InvalidKeyCombination),
                }
            },
        }
    }

    pub fn new(key: KeyCode, sys_key: Option<SysKeyCode>) -> (r: KeyTask)
        ensures
            r.key == Some(key),
            r.sys_key == sys_key,
    {
        KeyTask { key: Some(key), sys_key }
    }

    /// Builds the combination from two raw ordinals; both must be
    /// recognized, the first as a base key, the second as a modifier.
    pub fn try_new(key: u32, sys_key: u32) -> (r: Result<KeyTask, KeyTaskError>)
        ensures
            r is Ok <==> KeyCode::spec_from(key) is Some && SysKeyCode::spec_from(sys_key) is Some,
            r matches Ok(t) ==> t.key == KeyCode::spec_from(key) && t.sys_key == SysKeyCode::spec_from(sys_key),
    {
        let key = match KeyCode::try_from(key) {
            Some(k) => k,
            None => {
                return Err(KeyTaskError::InvalidKeyCombination);
            },
        };

        let sys_key = match SysKeyCode::try_from(sys_key) {
            Some(s) => s,
            None => {
                return Err(KeyTaskError::InvalidKeyCombination);
            },
        };

        Ok(KeyTask { key: Some(key), sys_key: Some(sys_key) })
    }

    /// Unpacks a code into its combination, the exact inverse of
    /// [`KeyTask::get_code`] on every combination that holds a base key.
    pub fn try_from(key_code: KeyTaskCode) -> (r: Result<KeyTask, KeyTaskError>)
        ensures
            r == KeyTask::spec_decode(key_code),
            r is Ok <==> KeyCode::spec_from(key_code & 0xFF) is Some && (key_code >> 8 == 0
                || SysKeyCode::spec_from(key_code >> 8) is Some),
    {
        let sys_key = key_code >> 8;
        let key = key_code & 0xFF;

        let key = match KeyCode::try_from(key) {
            Some(k) => k,
            None => {
                return Err(KeyTaskError::InvalidKeyCombination);
            },
        };

        if sys_key == 0 {
            return Ok(KeyTask { key: Some(key), sys_key: None });
        }

        match SysKeyCode::try_from(sys_key) {
            Some(m) => Ok(KeyTask { key: Some(key), sys_key: Some(m) }),
            None => Err(KeyTaskError::InvalidKeyCombination),
        }
    }

    pub fn get_code(&self) -> (r: KeyTaskCode)
        ensures
            r == self.spec_code(),
            r == 0 <==> self.key is None,
    {
        if let Some(key) = self.key {
            let sys: u32 = if let Some(sys_key) = self.sys_key {
                sys_key.ordinal()
            } else {
                0
            };
            let code = (sys << 8) | key.ordinal();
            proof {
                lemma_key_ordinal_range(key);
                let k = key.spec_ordinal();
                assert((sys << 8) | k != 0) by (bit_vector)
                    requires
                        k >= 0x20,
                ;
            }
            code
        } else {
            0
        }
    }
}

/// A combination whose base key is present never packs to the reserved
/// code `0`; one without a base key always does.
pub proof fn lemma_code_zero_iff_no_key(task: KeyTask)
    ensures
        task.spec_code() == 0 <==> task.key is None,
{
    if let Some(key) = task.key {
        lemma_key_ordinal_range(key);
        let k = key.spec_ordinal();
        let s = match task.sys_key {
            None => 0u32,
            Some(m) => m.spec_ordinal(),
        };
        assert((s << 8) | k != 0) by (bit_vector)
            requires
                k >= 0x20,
        ;
    }
}

/// Law: decoding inverts encoding. Every combination that holds a base
/// key — with or without a modifier — round-trips through its packed
/// code.
pub proof fn lemma_decode_encode_round_trip(task: KeyTask)
    requires
        task.key is Some,
    ensures
        KeyTask::spec_decode(task.spec_code()) == Ok::<KeyTask, KeyTaskError>(task),
{
    let key = task.key.unwrap();
    lemma_key_ordinal_range(key);
    lemma_key_from_ordinal(key);
    let k = key.spec_ordinal();
    match task.sys_key {
        None => {
            assert(((0u32 << 8) | k) & 0xFF == k && ((0u32 << 8) | k) >> 8 == 0) by (bit_vector)
                requires
                    k <= 0xDE,
            ;
        },
        Some(m) => {
            lemma_sys_key_ordinal_range(m);
            lemma_sys_key_from_ordinal(m);
            let s = m.spec_ordinal();
            assert(((s << 8) | k) & 0xFF == k && ((s << 8) | k) >> 8 == s) by (bit_vector)
                requires
                    k <= 0xDE && s <= 0xA5,
            ;
        },
    }
}

} // verus!
