//! Physical key identities and their two numeric projections: the USB-HID
//! style code used for game-mode key disabling, and the "RGB id" used in
//! lighting commands. The two numbering spaces differ by fixed, irregular
//! offsets (modifiers, media keys, the G-keys and the logo).

use vstd::prelude::*;

verus! {

/// One physical key on the keyboard.
#[derive(Copy, Clone, Debug, PartialEq, Eq, Hash, Structural)]
pub enum Scancode {
    A, B, C, D, E, F, G, H,
    I, J, K, L, N, M, O, P,
    Q, R, S, T, U, V, W, X,
    Y, Z, N1, N2, N3, N4, N5, N6,
    N7, N8, N9, N0, Enter, Escape, Backspace, Tab,
    Space, Minus, Equals, LeftBracket, RightBracket, USBackslash, HashTilde, Semicolon,
    Apostrophe, Grave, Comma, Dot, Slash, CapsLock, F1, F2,
    F3, F4, F5, F6, F7, F8, F9, F10,
    F11, F12, PrintScreen, ScrollLock, Pause, Insert, Home, PageUp,
    Delete, End, PageDown, Right, Left, Down, Up, NumLock,
    NumpadDivide, NumpadMultiply, NumpadMinus, NumpadPlus, NumpadEnter, Numpad1, Numpad2, Numpad3,
    Numpad4, Numpad5, Numpad6, Numpad7, Numpad8, Numpad9, Numpad0, NumpadDot,
    Backslash, ContextMenu, Mute, LeftControl, LeftShift, LeftAlt, LeftMeta, RightControl,
    RightShift, RightAlt, RightMeta, Light, G1, G2, G3, G4,
    G5, G6, G7, G8, Logo, MediaPrevious, MediaNext, MediaPlayPause,
}

impl Scancode {
    /// The USB-HID style code of this key. G-keys, media keys, the logo and
    /// the light key have no real scancode; their values are already RGB ids.
    pub open spec fn spec_hid_code(self) -> u8 {
        match self {
            Scancode::A => 4u8,
            Scancode::B => 5u8,
            Scancode::C => 6u8,
            Scancode::D => 7u8,
            Scancode::E => 8u8,
            Scancode::F => 9u8,
            Scancode::G => 10u8,
            Scancode::H => 11u8,
            Scancode::I => 12u8,
            Scancode::J => 13u8,
            Scancode::K => 14u8,
            Scancode::L => 15u8,
            Scancode::N => 16u8,
            Scancode::M => 17u8,
            Scancode::O => 18u8,
            Scancode::P => 19u8,
            Scancode::Q => 20u8,
            Scancode::R => 21u8,
            Scancode::S => 22u8,
            Scancode::T => 23u8,
            Scancode::U => 24u8,
            Scancode::V => 25u8,
            Scancode::W => 26u8,
            Scancode::X => 27u8,
            Scancode::Y => 28u8,
            Scancode::Z => 29u8,
            Scancode::N1 => 30u8,
            Scancode::N2 => 31u8,
            Scancode::N3 => 32u8,
            Scancode::N4 => 33u8,
            Scancode::N5 => 34u8,
            Scancode::N6 => 35u8,
            Scancode::N7 => 36u8,
            Scancode::N8 => 37u8,
            Scancode::N9 => 38u8,
            Scancode::N0 => 39u8,
            Scancode::Enter => 40u8,
            Scancode::Escape => 41u8,
            Scancode::Backspace => 42u8,
            Scancode::Tab => 43u8,
            Scancode::Space => 44u8,
            Scancode::Minus => 45u8,
            Scancode::Equals => 46u8,
            Scancode::LeftBracket => 47u8,
            Scancode::RightBracket => 48u8,
            Scancode::USBackslash => 49u8,
            Scancode::HashTilde => 50u8,
            Scancode::Semicolon => 51u8,
            Scancode::Apostrophe => 52u8,
            Scancode::Grave => 53u8,
            Scancode::Comma => 54u8,
            Scancode::Dot => 55u8,
            Scancode::Slash => 56u8,
            Scancode::CapsLock => 57u8,
            Scancode::F1 => 58u8,
            Scancode::F2 => 59u8,
            Scancode::F3 => 60u8,
            Scancode::F4 => 61u8,
            Scancode::F5 => 62u8,
            Scancode::F6 => 63u8,
            Scancode::F7 => 64u8,
            Scancode::F8 => 65u8,
            Scancode::F9 => 66u8,
            Scancode::F10 => 67u8,
            Scancode::F11 => 68u8,
            Scancode::F12 => 69u8,
            Scancode::PrintScreen => 70u8,
            Scancode::ScrollLock => 71u8,
            Scancode::Pause => 72u8,
            Scancode::Insert => 73u8,
            Scancode::Home => 74u8,
            Scancode::PageUp => 75u8,
            Scancode::Delete => 76u8,
            Scancode::End => 77u8,
            Scancode::PageDown => 78u8,
            Scancode::Right => 79u8,
            Scancode::Left => 80u8,
            Scancode::Down => 81u8,
            Scancode::Up => 82u8,
            Scancode::NumLock => 83u8,
            Scancode::NumpadDivide => 84u8,
            Scancode::NumpadMultiply => 85u8,
            Scancode::NumpadMinus => 86u8,
            Scancode::NumpadPlus => 87u8,
            Scancode::NumpadEnter => 88u8,
            Scancode::Numpad1 => 89u8,
            Scancode::Numpad2 => 90u8,
            Scancode::Numpad3 => 91u8,
            Scancode::Numpad4 => 92u8,
            Scancode::Numpad5 => 93u8,
            Scancode::Numpad6 => 94u8,
            Scancode::Numpad7 => 95u8,
            Scancode::Numpad8 => 96u8,
            Scancode::Numpad9 => 97u8,
            Scancode::Numpad0 => 98u8,
            Scancode::NumpadDot => 99u8,
            Scancode::Backslash => 100u8,
            Scancode::ContextMenu => 118u8,
            Scancode::Mute => 127u8,
            Scancode::LeftControl => 224u8,
            Scancode::LeftShift => 225u8,
            Scancode::LeftAlt => 226u8,
            Scancode::LeftMeta => 227u8,
            Scancode::RightControl => 228u8,
            Scancode::RightShift => 229u8,
            Scancode::RightAlt => 230u8,
            Scancode::RightMeta => 231u8,
            Scancode::Light => 153u8,
            Scancode::G1 => 180u8,
            Scancode::G2 => 181u8,
            Scancode::G3 => 182u8,
            Scancode::G4 => 183u8,
            Scancode::G5 => 184u8,
            Scancode::G6 => 185u8,
            Scancode::G7 => 186u8,
            Scancode::G8 => 187u8,
            Scancode::Logo => 210u8,
            Scancode::MediaPrevious => 158u8,
            Scancode::MediaNext => 157u8,
            Scancode::MediaPlayPause => 155u8,
        }
    }

    pub fn hid_code(self) -> (code: u8)
        ensures
            code == self.spec_hid_code(),
    {
        match self {
            Scancode::A => 4,
            Scancode::B => 5,
            Scancode::C => 6,
            Scancode::D => 7,
            Scancode::E => 8,
            Scancode::F => 9,
            Scancode::G => 10,
            Scancode::H => 11,
            Scancode::I => 12,
            Scancode::J => 13,
            Scancode::K => 14,
            Scancode::L => 15,
            Scancode::N => 16,
            Scancode::M => 17,
            Scancode::O => 18,
            Scancode::P => 19,
            Scancode::Q => 20,
            Scancode::R => 21,
            Scancode::S => 22,
            Scancode::T => 23,
            Scancode::U => 24,
            Scancode::V => 25,
            Scancode::W => 26,
            Scancode::X => 27,
            Scancode::Y => 28,
            Scancode::Z => 29,
            Scancode::N1 => 30,
            Scancode::N2 => 31,
            Scancode::N3 => 32,
            Scancode::N4 => 33,
            Scancode::N5 => 34,
            Scancode::N6 => 35,
            Scancode::N7 => 36,
            Scancode::N8 => 37,
            Scancode::N9 => 38,
            Scancode::N0 => 39,
            Scancode::Enter => 40,
            Scancode::Escape => 41,
            Scancode::Backspace => 42,
            Scancode::Tab => 43,
            Scancode::Space => 44,
            Scancode::Minus => 45,
            Scancode::Equals => 46,
            Scancode::LeftBracket => 47,
            Scancode::RightBracket => 48,
            Scancode::USBackslash => 49,
            Scancode::HashTilde => 50,
            Scancode::Semicolon => 51,
            Scancode::Apostrophe => 52,
            Scancode::Grave => 53,
            Scancode::Comma => 54,
            Scancode::Dot => 55,
            Scancode::Slash => 56,
            Scancode::CapsLock => 57,
            Scancode::F1 => 58,
            Scancode::F2 => 59,
            Scancode::F3 => 60,
            Scancode::F4 => 61,
            Scancode::F5 => 62,
            Scancode::F6 => 63,
            Scancode::F7 => 64,
            Scancode::F8 => 65,
            Scancode::F9 => 66,
            Scancode::F10 => 67,
            Scancode::F11 => 68,
            Scancode::F12 => 69,
            Scancode::PrintScreen => 70,
            Scancode::ScrollLock => 71,
            Scancode::Pause => 72,
            Scancode::Insert => 73,
            Scancode::Home => 74,
            Scancode::PageUp => 75,
            Scancode::Delete => 76,
            Scancode::End => 77,
            Scancode::PageDown => 78,
            Scancode::Right => 79,
            Scancode::Left => 80,
            Scancode::Down => 81,
            Scancode::Up => 82,
            Scancode::NumLock => 83,
            Scancode::NumpadDivide => 84,
            Scancode::NumpadMultiply => 85,
            Scancode::NumpadMinus => 86,
            Scancode::NumpadPlus => 87,
            Scancode::NumpadEnter => 88,
            Scancode::Numpad1 => 89,
            Scancode::Numpad2 => 90,
            Scancode::Numpad3 => 91,
            Scancode::Numpad4 => 92,
            Scancode::Numpad5 => 93,
            Scancode::Numpad6 => 94,
            Scancode::Numpad7 => 95,
            Scancode::Numpad8 => 96,
            Scancode::Numpad9 => 97,
            Scancode::Numpad0 => 98,
            Scancode::NumpadDot => 99,
            Scancode::Backslash => 100,
            Scancode::ContextMenu => 118,
            Scancode::Mute => 127,
            Scancode::LeftControl => 224,
            Scancode::LeftShift => 225,
            Scancode::LeftAlt => 226,
            Scancode::LeftMeta => 227,
            Scancode::RightControl => 228,
            Scancode::RightShift => 229,
            Scancode::RightAlt => 230,
            Scancode::RightMeta => 231,
            Scancode::Light => 153,
            Scancode::G1 => 180,
            Scancode::G2 => 181,
            Scancode::G3 => 182,
            Scancode::G4 => 183,
            Scancode::G5 => 184,
            Scancode::G6 => 185,
            Scancode::G7 => 186,
            Scancode::G8 => 187,
            Scancode::Logo => 210,
            Scancode::MediaPrevious => 158,
            Scancode::MediaNext => 157,
            Scancode::MediaPlayPause => 155,
        }
    }

    /// The key id used in lighting commands. Mute and the context-menu key
    /// have their own irregular ids; keys without a real scancode keep their
    /// value; modifiers sit 0x78 below their scancode; all others 0x03 below.
    pub open spec fn spec_rgb_id(self) -> u8 {
        match self {
            Scancode::Mute => 0x9cu8,
            Scancode::ContextMenu => 0x62u8,
            Scancode::Light => 153u8,
            Scancode::G1 => 180u8,
            Scancode::G2 => 181u8,
            Scancode::G3 => 182u8,
            Scancode::G4 => 183u8,
            Scancode::G5 => 184u8,
            Scancode::G6 => 185u8,
            Scancode::G7 => 186u8,
            Scancode::G8 => 187u8,
            Scancode::Logo => 210u8,
            Scancode::MediaPrevious => 158u8,
            Scancode::MediaNext => 157u8,
            Scancode::MediaPlayPause => 155u8,
            Scancode::LeftControl => 104u8,
            Scancode::LeftShift => 105u8,
            Scancode::LeftAlt => 106u8,
            Scancode::LeftMeta => 107u8,
            Scancode::RightControl => 108u8,
            Scancode::RightShift => 109u8,
            Scancode::RightAlt => 110u8,
            Scancode::RightMeta => 111u8,
            _ => (self.spec_hid_code() - 3) as u8,
        }
    }

    pub fn rgb_id(&self) -> (id: u8)
        ensures
            id == self.spec_rgb_id(),
    {
        let code = self.hid_code();
        match self {
            Scancode::Mute => 0x9c,
            Scancode::ContextMenu => 0x62,
            Scancode::Light
            | Scancode::G1
            | Scancode::G2
            | Scancode::G3
            | Scancode::G4
            | Scancode::G5
            | Scancode::G6
            | Scancode::G7
            | Scancode::G8
            | Scancode::Logo
            | Scancode::MediaPrevious
            | Scancode::MediaNext
            | Scancode::MediaPlayPause
                => code,
            Scancode::LeftControl
            | Scancode::LeftShift
            | Scancode::LeftAlt
            | Scancode::LeftMeta
            | Scancode::RightControl
            | Scancode::RightShift
            | Scancode::RightAlt
            | Scancode::RightMeta
                => code - 0x78,
            _ => code - 0x03,
        }
    }

    /// The key that a lighting-command id denotes, if any: the inverse of
    /// `spec_rgb_id`, which witnesses that no two keys share an RGB id.
    pub closed spec fn from_rgb_id(id: u8) -> Option<Scancode> {
        if id == 1u8 {
            Some(Scancode::A)
        } else if id == 2u8 {
            Some(Scancode::B)
        } else if id == 3u8 {
            Some(Scancode::C)
        } else if id == 4u8 {
            Some(Scancode::D)
        } else if id == 5u8 {
            Some(Scancode::E)
        } else if id == 6u8 {
            Some(Scancode::F)
        } else if id == 7u8 {
            Some(Scancode::G)
        } else if id == 8u8 {
            Some(Scancode::H)
        } else if id == 9u8 {
            Some(Scancode::I)
        } else if id == 10u8 {
            Some(Scancode::J)
        } else if id == 11u8 {
            Some(Scancode::K)
        } else if id == 12u8 {
            Some(Scancode::L)
        } else if id == 13u8 {
            Some(Scancode::N)
        } else if id == 14u8 {
            Some(Scancode::M)
        } else if id == 15u8 {
            Some(Scancode::O)
        } else if id == 16u8 {
            Some(Scancode::P)
        } else if id == 17u8 {
            Some(Scancode::Q)
        } else if id == 18u8 {
            Some(Scancode::R)
        } else if id == 19u8 {
            Some(Scancode::S)
        } else if id == 20u8 {
            Some(Scancode::T)
        } else if id == 21u8 {
            Some(Scancode::U)
        } else if id == 22u8 {
            Some(Scancode::V)
        } else if id == 23u8 {
            Some(Scancode::W)
        } else if id == 24u8 {
            Some(Scancode::X)
        } else if id == 25u8 {
            Some(Scancode::Y)
        } else if id == 26u8 {
            Some(Scancode::Z)
        } else if id == 27u8 {
            Some(Scancode::N1)
        } else if id == 28u8 {
            Some(Scancode::N2)
        } else if id == 29u8 {
            Some(Scancode::N3)
        } else if id == 30u8 {
            Some(Scancode::N4)
        } else if id == 31u8 {
            Some(Scancode::N5)
        } else if id == 32u8 {
            Some(Scancode::N6)
        } else if id == 33u8 {
            Some(Scancode::N7)
        } else if id == 34u8 {
            Some(Scancode::N8)
        } else if id == 35u8 {
            Some(Scancode::N9)
        } else if id == 36u8 {
            Some(Scancode::N0)
        } else if id == 37u8 {
            Some(Scancode::Enter)
        } else if id == 38u8 {
            Some(Scancode::Escape)
        } else if id == 39u8 {
            Some(Scancode::Backspace)
        } else if id == 40u8 {
            Some(Scancode::Tab)
        } else if id == 41u8 {
            Some(Scancode::Space)
        } else if id == 42u8 {
            Some(Scancode::Minus)
        } else if id == 43u8 {
            Some(Scancode::Equals)
        } else if id == 44u8 {
            Some(Scancode::LeftBracket)
        } else if id == 45u8 {
            Some(Scancode::RightBracket)
        } else if id == 46u8 {
            Some(Scancode::USBackslash)
        } else if id == 47u8 {
            Some(Scancode::HashTilde)
        } else if id == 48u8 {
            Some(Scancode::Semicolon)
        } else if id == 49u8 {
            Some(Scancode::Apostrophe)
        } else if id == 50u8 {
            Some(Scancode::Grave)
        } else if id == 51u8 {
            Some(Scancode::Comma)
        } else if id == 52u8 {
            Some(Scancode::Dot)
        } else if id == 53u8 {
            Some(Scancode::Slash)
        } else if id == 54u8 {
            Some(Scancode::CapsLock)
        } else if id == 55u8 {
            Some(Scancode::F1)
        } else if id == 56u8 {
            Some(Scancode::F2)
        } else if id == 57u8 {
            Some(Scancode::F3)
        } else if id == 58u8 {
            Some(Scancode::F4)
        } else if id == 59u8 {
            Some(Scancode::F5)
        } else if id == 60u8 {
            Some(Scancode::F6)
        } else if id == 61u8 {
            Some(Scancode::F7)
        } else if id == 62u8 {
            Some(Scancode::F8)
        } else if id == 63u8 {
            Some(Scancode::F9)
        } else if id == 64u8 {
            Some(Scancode::F10)
        } else if id == 65u8 {
            Some(Scancode::F11)
        } else if id == 66u8 {
            Some(Scancode::F12)
        } else if id == 67u8 {
            Some(Scancode::PrintScreen)
        } else if id == 68u8 {
            Some(Scancode::ScrollLock)
        } else if id == 69u8 {
            Some(Scancode::Pause)
        } else if id == 70u8 {
            Some(Scancode::Insert)
        } else if id == 71u8 {
            Some(Scancode::Home)
        } else if id == 72u8 {
            Some(Scancode::PageUp)
        } else if id == 73u8 {
            Some(Scancode::Delete)
        } else if id == 74u8 {
            Some(Scancode::End)
        } else if id == 75u8 {
            Some(Scancode::PageDown)
        } else if id == 76u8 {
            Some(Scancode::Right)
        } else if id == 77u8 {
            Some(Scancode::Left)
        } else if id == 78u8 {
            Some(Scancode::Down)
        } else if id == 79u8 {
            Some(Scancode::Up)
        } else if id == 80u8 {
            Some(Scancode::NumLock)
        } else if id == 81u8 {
            Some(Scancode::NumpadDivide)
        } else if id == 82u8 {
            Some(Scancode::NumpadMultiply)
        } else if id == 83u8 {
            Some(Scancode::NumpadMinus)
        } else if id == 84u8 {
            Some(Scancode::NumpadPlus)
        } else if id == 85u8 {
            Some(Scancode::NumpadEnter)
        } else if id == 86u8 {
            Some(Scancode::Numpad1)
        } else if id == 87u8 {
            Some(Scancode::Numpad2)
        } else if id == 88u8 {
            Some(Scancode::Numpad3)
        } else if id == 89u8 {
            Some(Scancode::Numpad4)
        } else if id == 90u8 {
            Some(Scancode::Numpad5)
        } else if id == 91u8 {
            Some(Scancode::Numpad6)
        } else if id == 92u8 {
            Some(Scancode::Numpad7)
        } else if id == 93u8 {
            Some(Scancode::Numpad8)
        } else if id == 94u8 {
            Some(Scancode::Numpad9)
        } else if id == 95u8 {
            Some(Scancode::Numpad0)
        } else if id == 96u8 {
            Some(Scancode::NumpadDot)
        } else if id == 97u8 {
            Some(Scancode::Backslash)
        } else if id == 98u8 {
            Some(Scancode::ContextMenu)
        } else if id == 104u8 {
            Some(Scancode::LeftControl)
        } else if id == 105u8 {
            Some(Scancode::LeftShift)
        } else if id == 106u8 {
            Some(Scancode::LeftAlt)
        } else if id == 107u8 {
            Some(Scancode::LeftMeta)
        } else if id == 108u8 {
            Some(Scancode::RightControl)
        } else if id == 109u8 {
            Some(Scancode::RightShift)
        } else if id == 110u8 {
            Some(Scancode::RightAlt)
        } else if id == 111u8 {
            Some(Scancode::RightMeta)
        } else if id == 153u8 {
            Some(Scancode::Light)
        } else if id == 155u8 {
            Some(Scancode::MediaPlayPause)
        } else if id == 156u8 {
            Some(Scancode::Mute)
        } else if id == 157u8 {
            Some(Scancode::MediaNext)
        } else if id == 158u8 {
            Some(Scancode::MediaPrevious)
        } else if id == 180u8 {
            Some(Scancode::G1)
        } else if id == 181u8 {
            Some(Scancode::G2)
        } else if id == 182u8 {
            Some(Scancode::G3)
        } else if id == 183u8 {
            Some(Scancode::G4)
        } else if id == 184u8 {
            Some(Scancode::G5)
        } else if id == 185u8 {
            Some(Scancode::G6)
        } else if id == 186u8 {
            Some(Scancode::G7)
        } else if id == 187u8 {
            Some(Scancode::G8)
        } else if id == 210u8 {
            Some(Scancode::Logo)
        } else {
            None
        }
    }

    /// The programmable key that a 1-based G-key number denotes.
    pub fn from_gkey(gkey_number: u8) -> (s: Option<Scancode>)
        ensures
            s == Scancode::spec_from_gkey(gkey_number),
    {
        match gkey_number {
            1 => Some(Scancode::G1),
            2 => Some(Scancode::G2),
            3 => Some(Scancode::G3),
            4 => Some(Scancode::G4),
            5 => Some(Scancode::G5),
            6 => Some(Scancode::G6),
            7 => Some(Scancode::G7),
            8 => Some(Scancode::G8),
            _ => None,
        }
    }

    pub open spec fn spec_from_gkey(gkey_number: u8) -> Option<Scancode> {
        if gkey_number == 1 {
            Some(Scancode::G1)
        } else if gkey_number == 2 {
            Some(Scancode::G2)
        } else if gkey_number == 3 {
            Some(Scancode::G3)
        } else if gkey_number == 4 {
            Some(Scancode::G4)
        } else if gkey_number == 5 {
            Some(Scancode::G5)
        } else if gkey_number == 6 {
            Some(Scancode::G6)
        } else if gkey_number == 7 {
            Some(Scancode::G7)
        } else if gkey_number == 8 {
            Some(Scancode::G8)
        } else {
            None
        }
    }

    /// The 1-based G-key number of this key, if it is a G-key.
    pub fn gkey_number(&self) -> (n: Option<u8>)
        ensures
            n matches Some(k) ==> 1 <= k <= 8 && Scancode::spec_from_gkey(k) == Some(*self),
            n is None ==> forall|k: u8| Scancode::spec_from_gkey(k) != Some(*self),
    {
        match self {
            Scancode::G1 => Some(1),
            Scancode::G2 => Some(2),
            Scancode::G3 => Some(3),
            Scancode::G4 => Some(4),
            Scancode::G5 => Some(5),
            Scancode::G6 => Some(6),
            Scancode::G7 => Some(7),
            Scancode::G8 => Some(8),
            _ => None,
        }
    }
}

/// Every key maps back to itself through `from_rgb_id`: the RGB id mapping
/// is total and no two keys share an id.
pub proof fn lemma_rgb_id_round_trip(s: Scancode)
    ensures
        Scancode::from_rgb_id(s.spec_rgb_id()) == Some(s),
{
}

/// No two distinct keys share an RGB id.
pub proof fn lemma_rgb_id_injective(a: Scancode, b: Scancode)
    requires
        a.spec_rgb_id() == b.spec_rgb_id(),
    ensures
        a == b,
{
    lemma_rgb_id_round_trip(a);
    lemma_rgb_id_round_trip(b);
}

/// Every key of the keyboard, in declaration order.
pub open spec fn spec_all_scancodes() -> Seq<Scancode> {
    seq![
        Scancode::A, Scancode::B, Scancode::C, Scancode::D, Scancode::E, Scancode::F,
        Scancode::G, Scancode::H, Scancode::I, Scancode::J, Scancode::K, Scancode::L,
        Scancode::N, Scancode::M, Scancode::O, Scancode::P, Scancode::Q, Scancode::R,
        Scancode::S, Scancode::T, Scancode::U, Scancode::V, Scancode::W, Scancode::X,
        Scancode::Y, Scancode::Z, Scancode::N1, Scancode::N2, Scancode::N3, Scancode::N4,
        Scancode::N5, Scancode::N6, Scancode::N7, Scancode::N8, Scancode::N9, Scancode::N0,
        Scancode::Enter, Scancode::Escape, Scancode::Backspace, Scancode::Tab, Scancode::Space, Scancode::Minus,
        Scancode::Equals, Scancode::LeftBracket, Scancode::RightBracket, Scancode::USBackslash, Scancode::HashTilde, Scancode::Semicolon,
        Scancode::Apostrophe, Scancode::Grave, Scancode::Comma, Scancode::Dot, Scancode::Slash, Scancode::CapsLock,
        Scancode::F1, Scancode::F2, Scancode::F3, Scancode::F4, Scancode::F5, Scancode::F6,
        Scancode::F7, Scancode::F8, Scancode::F9, Scancode::F10, Scancode::F11, Scancode::F12,
        Scancode::PrintScreen, Scancode::ScrollLock, Scancode::Pause, Scancode::Insert, Scancode::Home, Scancode::PageUp,
        Scancode::Delete, Scancode::End, Scancode::PageDown, Scancode::Right, Scancode::Left, Scancode::Down,
        Scancode::Up, Scancode::NumLock, Scancode::NumpadDivide, Scancode::NumpadMultiply, Scancode::NumpadMinus, Scancode::NumpadPlus,
        Scancode::NumpadEnter, Scancode::Numpad1, Scancode::Numpad2, Scancode::Numpad3, Scancode::Numpad4, Scancode::Numpad5,
        Scancode::Numpad6, Scancode::Numpad7, Scancode::Numpad8, Scancode::Numpad9, Scancode::Numpad0, Scancode::NumpadDot,
        Scancode::Backslash, Scancode::ContextMenu, Scancode::Mute, Scancode::LeftControl, Scancode::LeftShift, Scancode::LeftAlt,
        Scancode::LeftMeta, Scancode::RightControl, Scancode::RightShift, Scancode::RightAlt, Scancode::RightMeta, Scancode::Light,
        Scancode::G1, Scancode::G2, Scancode::G3, Scancode::G4, Scancode::G5, Scancode::G6,
        Scancode::G7, Scancode::G8, Scancode::Logo, Scancode::MediaPrevious, Scancode::MediaNext, Scancode::MediaPlayPause,
    ]
}

/// Every key of the keyboard, in declaration order: the whole key matrix
/// for commands that address all keys.
#[verifier::rlimit(60)]
pub fn all_scancodes() -> (codes: Vec<Scancode>)
    ensures
        codes@ == spec_all_scancodes(),
        codes@.len() == 120,
{
    let codes: Vec<Scancode> = vec![
        Scancode::A, Scancode::B, Scancode::C, Scancode::D, Scancode::E, Scancode::F,
        Scancode::G, Scancode::H, Scancode::I, Scancode::J, Scancode::K, Scancode::L,
        Scancode::N, Scancode::M, Scancode::O, Scancode::P, Scancode::Q, Scancode::R,
        Scancode::S, Scancode::T, Scancode::U, Scancode::V, Scancode::W, Scancode::X,
        Scancode::Y, Scancode::Z, Scancode::N1, Scancode::N2, Scancode::N3, Scancode::N4,
        Scancode::N5, Scancode::N6, Scancode::N7, Scancode::N8, Scancode::N9, Scancode::N0,
        Scancode::Enter, Scancode::Escape, Scancode::Backspace, Scancode::Tab, Scancode::Space, Scancode::Minus,
        Scancode::Equals, Scancode::LeftBracket, Scancode::RightBracket, Scancode::USBackslash, Scancode::HashTilde, Scancode::Semicolon,
        Scancode::Apostrophe, Scancode::Grave, Scancode::Comma, Scancode::Dot, Scancode::Slash, Scancode::CapsLock,
        Scancode::F1, Scancode::F2, Scancode::F3, Scancode::F4, Scancode::F5, Scancode::F6,
        Scancode::F7, Scancode::F8, Scancode::F9, Scancode::F10, Scancode::F11, Scancode::F12,
        Scancode::PrintScreen, Scancode::ScrollLock, Scancode::Pause, Scancode::Insert, Scancode::Home, Scancode::PageUp,
        Scancode::Delete, Scancode::End, Scancode::PageDown, Scancode::Right, Scancode::Left, Scancode::Down,
        Scancode::Up, Scancode::NumLock, Scancode::NumpadDivide, Scancode::NumpadMultiply, Scancode::NumpadMinus, Scancode::NumpadPlus,
        Scancode::NumpadEnter, Scancode::Numpad1, Scancode::Numpad2, Scancode::Numpad3, Scancode::Numpad4, Scancode::Numpad5,
        Scancode::Numpad6, Scancode::Numpad7, Scancode::Numpad8, Scancode::Numpad9, Scancode::Numpad0, Scancode::NumpadDot,
        Scancode::Backslash, Scancode::ContextMenu, Scancode::Mute, Scancode::LeftControl, Scancode::LeftShift, Scancode::LeftAlt,
        Scancode::LeftMeta, Scancode::RightControl, Scancode::RightShift, Scancode::RightAlt, Scancode::RightMeta, Scancode::Light,
        Scancode::G1, Scancode::G2, Scancode::G3, Scancode::G4, Scancode::G5, Scancode::G6,
        Scancode::G7, Scancode::G8, Scancode::Logo, Scancode::MediaPrevious, Scancode::MediaNext, Scancode::MediaPlayPause,
    ];
    assert(codes@ =~= spec_all_scancodes());
    codes
}

} // verus!
