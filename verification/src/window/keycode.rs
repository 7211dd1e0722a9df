//! Friendly names for Windows virtual-key codes.

use vstd::prelude::*;

use super::vk;

verus! {

/// Friendly names for Windows VK_* constants
#[derive(Debug, Clone, Copy, PartialEq, Eq, Structural)]
pub enum KeyCode {
    /// Unknown key, contained value is the virtual key code
    Unknown(usize),
    /// Virtual-key code `VK_LSHIFT`.
    LeftShift,
    /// Virtual-key code `VK_RSHIFT`.
    RightShift,
    /// Virtual-key code `VK_LCONTROL`.
    LeftControl,
    /// Virtual-key code `VK_RCONTROL`.
    RightControl,
    /// Virtual-key code `VK_LMENU`.
    LeftAlt,
    /// Virtual-key code `VK_RMENU`.
    RightAlt,
    /// Virtual-key code `VK_OEM_PLUS`.
    Plus,
    /// Virtual-key code `VK_OEM_COMMA`.
    Comma,
    /// Virtual-key code `VK_OEM_MINUS`.
    Minus,
    /// Virtual-key code `VK_OEM_PERIOD`.
    Period,
    /// Virtual-key code `VK_OEM_1`.
    SemiColon,
    /// Virtual-key code `VK_OEM_2`.
    Slash,
    /// Virtual-key code `VK_OEM_3`.
    Tilde,
    /// Virtual-key code `VK_OEM_4`.
    LeftBracket,
    /// Virtual-key code `VK_OEM_5`.
    BackSlash,
    /// Virtual-key code `VK_OEM_6`.
    RightBracket,
    /// Virtual-key code `VK_OEM_7`.
    Quote,
    /// Virtual-key code `VK_BACK`.
    Backspace,
    /// Virtual-key code `VK_TAB`.
    Tab,
    /// Virtual-key code `VK_RETURN`.
    Return,
    /// Virtual-key code `VK_PAUSE`.
    Pause,
    /// Virtual-key code `VK_ESCAPE`.
    Escape,
    /// Virtual-key code `VK_SPACE`.
    Space,
    /// Virtual-key code `VK_PRIOR`.
    PageUp,
    /// Virtual-key code `VK_NEXT`.
    PageDown,
    /// Virtual-key code `VK_END`.
    End,
    /// Virtual-key code `VK_HOME`.
    Home,
    /// Virtual-key code `VK_LEFT`.
    Left,
    /// Virtual-key code `VK_UP`.
    Up,
    /// Virtual-key code `VK_RIGHT`.
    Right,
    /// Virtual-key code `VK_DOWN`.
    Down,
    /// Virtual-key code `VK_SNAPSHOT`.
    PrintScreen,
    /// Virtual-key code `VK_INSERT`.
    Insert,
    /// Virtual-key code `VK_DELETE`.
    Delete,
    /// Virtual-key code `VK_CAPITAL`.
    CapsLock,
    /// Virtual-key code `VK_NUMLOCK`.
    NumLock,
    /// Virtual-key code `VK_SCROLL`.
    ScrollLock,
    /// Virtual-key code `VK_0`.
    Key0,
    /// Virtual-key code `VK_1`.
    Key1,
    /// Virtual-key code `VK_2`.
    Key2,
    /// Virtual-key code `VK_3`.
    Key3,
    /// Virtual-key code `VK_4`.
    Key4,
    /// Virtual-key code `VK_5`.
    Key5,
    /// Virtual-key code `VK_6`.
    Key6,
    /// Virtual-key code `VK_7`.
    Key7,
    /// Virtual-key code `VK_8`.
    Key8,
    /// Virtual-key code `VK_9`.
    Key9,
    /// Virtual-key code `VK_A`.
    A,
    /// Virtual-key code `VK_B`.
    B,
    /// Virtual-key code `VK_C`.
    C,
    /// Virtual-key code `VK_D`.
    D,
    /// Virtual-key code `VK_E`.
    E,
    /// Virtual-key code `VK_F`.
    F,
    /// Virtual-key code `VK_G`.
    G,
    /// Virtual-key code `VK_H`.
    H,
    /// Virtual-key code `VK_I`.
    I,
    /// Virtual-key code `VK_J`.
    J,
    /// Virtual-key code `VK_K`.
    K,
    /// Virtual-key code `VK_L`.
    L,
    /// Virtual-key code `VK_M`.
    M,
    /// Virtual-key code `VK_N`.
    N,
    /// Virtual-key code `VK_O`.
    O,
    /// Virtual-key code `VK_P`.
    P,
    /// Virtual-key code `VK_Q`.
    Q,
    /// Virtual-key code `VK_R`.
    R,
    /// Virtual-key code `VK_S`.
    S,
    /// Virtual-key code `VK_T`.
    T,
    /// Virtual-key code `VK_U`.
    U,
    /// Virtual-key code `VK_V`.
    V,
    /// Virtual-key code `VK_W`.
    W,
    /// Virtual-key code `VK_X`.
    X,
    /// Virtual-key code `VK_Y`.
    Y,
    /// Virtual-key code `VK_Z`.
    Z,
    /// Virtual-key code `VK_NUMPAD0`.
    Numpad0,
    /// Virtual-key code `VK_NUMPAD1`.
    Numpad1,
    /// Virtual-key code `VK_NUMPAD2`.
    Numpad2,
    /// Virtual-key code `VK_NUMPAD3`.
    Numpad3,
    /// Virtual-key code `VK_NUMPAD4`.
    Numpad4,
    /// Virtual-key code `VK_NUMPAD5`.
    Numpad5,
    /// Virtual-key code `VK_NUMPAD6`.
    Numpad6,
    /// Virtual-key code `VK_NUMPAD7`.
    Numpad7,
    /// Virtual-key code `VK_NUMPAD8`.
    Numpad8,
    /// Virtual-key code `VK_NUMPAD9`.
    Numpad9,
    /// Virtual-key code `VK_MULTIPLY`.
    NumpadMultiply,
    /// Virtual-key code `VK_ADD`.
    NumpadPlus,
    /// Virtual-key code `VK_SUBTRACT`.
    NumpadMinus,
    /// Virtual-key code `VK_DECIMAL`.
    NumpadPeriod,
    /// Virtual-key code `VK_DIVIDE`.
    NumpadDivide,
    /// Virtual-key code `VK_F1`.
    F1,
    /// Virtual-key code `VK_F2`.
    F2,
    /// Virtual-key code `VK_F3`.
    F3,
    /// Virtual-key code `VK_F4`.
    F4,
    /// Virtual-key code `VK_F5`.
    F5,
    /// Virtual-key code `VK_F6`.
    F6,
    /// Virtual-key code `VK_F7`.
    F7,
    /// Virtual-key code `VK_F8`.
    F8,
    /// Virtual-key code `VK_F9`.
    F9,
    /// Virtual-key code `VK_F10`.
    F10,
    /// Virtual-key code `VK_F11`.
    F11,
    /// Virtual-key code `VK_F12`.
    F12,
    /// Virtual-key code `VK_F13`.
    F13,
    /// Virtual-key code `VK_F14`.
    F14,
    /// Virtual-key code `VK_F15`.
    F15,
    /// Virtual-key code `VK_F16`.
    F16,
    /// Virtual-key code `VK_F17`.
    F17,
    /// Virtual-key code `VK_F18`.
    F18,
    /// Virtual-key code `VK_F19`.
    F19,
    /// Virtual-key code `VK_F20`.
    F20,
    /// Virtual-key code `VK_F21`.
    F21,
    /// Virtual-key code `VK_F22`.
    F22,
    /// Virtual-key code `VK_F23`.
    F23,
    /// Virtual-key code `VK_F24`.
    F24,
}

impl KeyCode {
    /// The virtual-key code that this key stands for.
    pub open spec fn virtual_key(self) -> usize {
        match self {
            KeyCode::Unknown(code) => code,
            KeyCode::LeftShift => vk::VK_LSHIFT,
            KeyCode::RightShift => vk::VK_RSHIFT,
            KeyCode::LeftControl => vk::VK_LCONTROL,
            KeyCode::RightControl => vk::VK_RCONTROL,
            KeyCode::LeftAlt => vk::VK_LMENU,
            KeyCode::RightAlt => vk::VK_RMENU,
            KeyCode::Plus => vk::VK_OEM_PLUS,
            KeyCode::Comma => vk::VK_OEM_COMMA,
            KeyCode::Minus => vk::VK_OEM_MINUS,
            KeyCode::Period => vk::VK_OEM_PERIOD,
            KeyCode::SemiColon => vk::VK_OEM_1,
            KeyCode::Slash => vk::VK_OEM_2,
            KeyCode::Tilde => vk::VK_OEM_3,
            KeyCode::LeftBracket => vk::VK_OEM_4,
            KeyCode::BackSlash => vk::VK_OEM_5,
            KeyCode::RightBracket => vk::VK_OEM_6,
            KeyCode::Quote => vk::VK_OEM_7,
            KeyCode::Backspace => vk::VK_BACK,
            KeyCode::Tab => vk::VK_TAB,
            KeyCode::Return => vk::VK_RETURN,
            KeyCode::Pause => vk::VK_PAUSE,
            KeyCode::Escape => vk::VK_ESCAPE,
            KeyCode::Space => vk::VK_SPACE,
            KeyCode::PageUp => vk::VK_PRIOR,
            KeyCode::PageDown => vk::VK_NEXT,
            KeyCode::End => vk::VK_END,
            KeyCode::Home => vk::VK_HOME,
            KeyCode::Left => vk::VK_LEFT,
            KeyCode::Up => vk::VK_UP,
            KeyCode::Right => vk::VK_RIGHT,
            KeyCode::Down => vk::VK_DOWN,
            KeyCode::PrintScreen => vk::VK_SNAPSHOT,
            KeyCode::Insert => vk::VK_INSERT,
            KeyCode::Delete => vk::VK_DELETE,
            KeyCode::CapsLock => vk::VK_CAPITAL,
            KeyCode::NumLock => vk::VK_NUMLOCK,
            KeyCode::ScrollLock => vk::VK_SCROLL,
            KeyCode::Key0 => vk::VK_0,
            KeyCode::Key1 => vk::VK_1,
            KeyCode::Key2 => vk::VK_2,
            KeyCode::Key3 => vk::VK_3,
            KeyCode::Key4 => vk::VK_4,
            KeyCode::Key5 => vk::VK_5,
            KeyCode::Key6 => vk::VK_6,
            KeyCode::Key7 => vk::VK_7,
            KeyCode::Key8 => vk::VK_8,
            KeyCode::Key9 => vk::VK_9,
            KeyCode::A => vk::VK_A,
            KeyCode::B => vk::VK_B,
            KeyCode::C => vk::VK_C,
            KeyCode::D => vk::VK_D,
            KeyCode::E => vk::VK_E,
            KeyCode::F => vk::VK_F,
            KeyCode::G => vk::VK_G,
            KeyCode::H => vk::VK_H,
            KeyCode::I => vk::VK_I,
            KeyCode::J => vk::VK_J,
            KeyCode::K => vk::VK_K,
            KeyCode::L => vk::VK_L,
            KeyCode::M => vk::VK_M,
            KeyCode::N => vk::VK_N,
            KeyCode::O => vk::VK_O,
            KeyCode::P => vk::VK_P,
            KeyCode::Q => vk::VK_Q,
            KeyCode::R => vk::VK_R,
            KeyCode::S => vk::VK_S,
            KeyCode::T => vk::VK_T,
            KeyCode::U => vk::VK_U,
            KeyCode::V => vk::VK_V,
            KeyCode::W => vk::VK_W,
            KeyCode::X => vk::VK_X,
            KeyCode::Y => vk::VK_Y,
            KeyCode::Z => vk::VK_Z,
            KeyCode::Numpad0 => vk::VK_NUMPAD0,
            KeyCode::Numpad1 => vk::VK_NUMPAD1,
            KeyCode::Numpad2 => vk::VK_NUMPAD2,
            KeyCode::Numpad3 => vk::VK_NUMPAD3,
            KeyCode::Numpad4 => vk::VK_NUMPAD4,
            KeyCode::Numpad5 => vk::VK_NUMPAD5,
            KeyCode::Numpad6 => vk::VK_NUMPAD6,
            KeyCode::Numpad7 => vk::VK_NUMPAD7,
            KeyCode::Numpad8 => vk::VK_NUMPAD8,
            KeyCode::Numpad9 => vk::VK_NUMPAD9,
            KeyCode::NumpadMultiply => vk::VK_MULTIPLY,
            KeyCode::NumpadPlus => vk::VK_ADD,
            KeyCode::NumpadMinus => vk::VK_SUBTRACT,
            KeyCode::NumpadPeriod => vk::VK_DECIMAL,
            KeyCode::NumpadDivide => vk::VK_DIVIDE,
            KeyCode::F1 => vk::VK_F1,
            KeyCode::F2 => vk::VK_F2,
            KeyCode::F3 => vk::VK_F3,
            KeyCode::F4 => vk::VK_F4,
            KeyCode::F5 => vk::VK_F5,
            KeyCode::F6 => vk::VK_F6,
            KeyCode::F7 => vk::VK_F7,
            KeyCode::F8 => vk::VK_F8,
            KeyCode::F9 => vk::VK_F9,
            KeyCode::F10 => vk::VK_F10,
            KeyCode::F11 => vk::VK_F11,
            KeyCode::F12 => vk::VK_F12,
            KeyCode::F13 => vk::VK_F13,
            KeyCode::F14 => vk::VK_F14,
            KeyCode::F15 => vk::VK_F15,
            KeyCode::F16 => vk::VK_F16,
            KeyCode::F17 => vk::VK_F17,
            KeyCode::F18 => vk::VK_F18,
            KeyCode::F19 => vk::VK_F19,
            KeyCode::F20 => vk::VK_F20,
            KeyCode::F21 => vk::VK_F21,
            KeyCode::F22 => vk::VK_F22,
            KeyCode::F23 => vk::VK_F23,
            KeyCode::F24 => vk::VK_F24,
        }
    }

    /// Convert from Windows virtual keycode.
    pub fn from_virtual_key(virtual_key: usize) -> (key: KeyCode)
        ensures
            decodes_to(virtual_key, key),
            virtual_key == 0xA0 ==> key == KeyCode::LeftShift,
            virtual_key == 0xA1 ==> key == KeyCode::RightShift,
            virtual_key == 0xA2 ==> key == KeyCode::LeftControl,
            virtual_key == 0xA3 ==> key == KeyCode::RightControl,
            virtual_key == 0xA4 ==> key == KeyCode::LeftAlt,
            virtual_key == 0xA5 ==> key == KeyCode::RightAlt,
            virtual_key == 0xBB ==> key == KeyCode::Plus,
            virtual_key == 0xBC ==> key == KeyCode::Comma,
            virtual_key == 0xBD ==> key == KeyCode::Minus,
            virtual_key == 0xBE ==> key == KeyCode::Period,
            virtual_key == 0xBA ==> key == KeyCode::SemiColon,
            virtual_key == 0xBF ==> key == KeyCode::Slash,
            virtual_key == 0xC0 ==> key == KeyCode::Tilde,
            virtual_key == 0xDB ==> key == KeyCode::LeftBracket,
            virtual_key == 0xDC ==> key == KeyCode::BackSlash,
            virtual_key == 0xDD ==> key == KeyCode::RightBracket,
            virtual_key == 0xDE ==> key == KeyCode::Quote,
            virtual_key == 0x08 ==> key == KeyCode::Backspace,
            virtual_key == 0x09 ==> key == KeyCode::Tab,
            virtual_key == 0x0D ==> key == KeyCode::Return,
            virtual_key == 0x13 ==> key == KeyCode::Pause,
            virtual_key == 0x1B ==> key == KeyCode::Escape,
            virtual_key == 0x20 ==> key == KeyCode::Space,
            virtual_key == 0x21 ==> key == KeyCode::PageUp,
            virtual_key == 0x22 ==> key == KeyCode::PageDown,
            virtual_key == 0x23 ==> key == KeyCode::End,
            virtual_key == 0x24 ==> key == KeyCode::Home,
            virtual_key == 0x25 ==> key == KeyCode::Left,
            virtual_key == 0x26 ==> key == KeyCode::Up,
            virtual_key == 0x27 ==> key == KeyCode::Right,
            virtual_key == 0x28 ==> key == KeyCode::Down,
            virtual_key == 0x2C ==> key == KeyCode::PrintScreen,
            virtual_key == 0x2D ==> key == KeyCode::Insert,
            virtual_key == 0x2E ==> key == KeyCode::Delete,
            virtual_key == 0x14 ==> key == KeyCode::CapsLock,
            virtual_key == 0x90 ==> key == KeyCode::NumLock,
            virtual_key == 0x91 ==> key == KeyCode::ScrollLock,
            virtual_key == 0x30 ==> key == KeyCode::Key0,
            virtual_key == 0x31 ==> key == KeyCode::Key1,
            virtual_key == 0x32 ==> key == KeyCode::Key2,
            virtual_key == 0x33 ==> key == KeyCode::Key3,
            virtual_key == 0x34 ==> key == KeyCode::Key4,
            virtual_key == 0x35 ==> key == KeyCode::Key5,
            virtual_key == 0x36 ==> key == KeyCode::Key6,
            virtual_key == 0x37 ==> key == KeyCode::Key7,
            virtual_key == 0x38 ==> key == KeyCode::Key8,
            virtual_key == 0x39 ==> key == KeyCode::Key9,
            virtual_key == 0x41 ==> key == KeyCode::A,
            virtual_key == 0x42 ==> key == KeyCode::B,
            virtual_key == 0x43 ==> key == KeyCode::C,
            virtual_key == 0x44 ==> key == KeyCode::D,
            virtual_key == 0x45 ==> key == KeyCode::E,
            virtual_key == 0x46 ==> key == KeyCode::F,
            virtual_key == 0x47 ==> key == KeyCode::G,
            virtual_key == 0x48 ==> key == KeyCode::H,
            virtual_key == 0x49 ==> key == KeyCode::I,
            virtual_key == 0x4A ==> key == KeyCode::J,
            virtual_key == 0x4B ==> key == KeyCode::K,
            virtual_key == 0x4C ==> key == KeyCode::L,
            virtual_key == 0x4D ==> key == KeyCode::M,
            virtual_key == 0x4E ==> key == KeyCode::N,
            virtual_key == 0x4F ==> key == KeyCode::O,
            virtual_key == 0x50 ==> key == KeyCode::P,
            virtual_key == 0x51 ==> key == KeyCode::Q,
            virtual_key == 0x52 ==> key == KeyCode::R,
            virtual_key == 0x53 ==> key == KeyCode::S,
            virtual_key == 0x54 ==> key == KeyCode::T,
            virtual_key == 0x55 ==> key == KeyCode::U,
            virtual_key == 0x56 ==> key == KeyCode::V,
            virtual_key == 0x57 ==> key == KeyCode::W,
            virtual_key == 0x58 ==> key == KeyCode::X,
            virtual_key == 0x59 ==> key == KeyCode::Y,
            virtual_key == 0x5A ==> key == KeyCode::Z,
            virtual_key == 0x60 ==> key == KeyCode::Numpad0,
            virtual_key == 0x61 ==> key == KeyCode::Numpad1,
            virtual_key == 0x62 ==> key == KeyCode::Numpad2,
            virtual_key == 0x63 ==> key == KeyCode::Numpad3,
            virtual_key == 0x64 ==> key == KeyCode::Numpad4,
            virtual_key == 0x65 ==> key == KeyCode::Numpad5,
            virtual_key == 0x66 ==> key == KeyCode::Numpad6,
            virtual_key == 0x67 ==> key == KeyCode::Numpad7,
            virtual_key == 0x68 ==> key == KeyCode::Numpad8,
            virtual_key == 0x69 ==> key == KeyCode::Numpad9,
            virtual_key == 0x6A ==> key == KeyCode::NumpadMultiply,
            virtual_key == 0x6B ==> key == KeyCode::NumpadPlus,
            virtual_key == 0x6D ==> key == KeyCode::NumpadMinus,
            virtual_key == 0x6E ==> key == KeyCode::NumpadPeriod,
            virtual_key == 0x6F ==> key == KeyCode::NumpadDivide,
            virtual_key == 0x70 ==> key == KeyCode::F1,
            virtual_key == 0x71 ==> key == KeyCode::F2,
            virtual_key == 0x72 ==> key == KeyCode::F3,
            virtual_key == 0x73 ==> key == KeyCode::F4,
            virtual_key == 0x74 ==> key == KeyCode::F5,
            virtual_key == 0x75 ==> key == KeyCode::F6,
            virtual_key == 0x76 ==> key == KeyCode::F7,
            virtual_key == 0x77 ==> key == KeyCode::F8,
            virtual_key == 0x78 ==> key == KeyCode::F9,
            virtual_key == 0x79 ==> key == KeyCode::F10,
            virtual_key == 0x7A ==> key == KeyCode::F11,
            virtual_key == 0x7B ==> key == KeyCode::F12,
            virtual_key == 0x7C ==> key == KeyCode::F13,
            virtual_key == 0x7D ==> key == KeyCode::F14,
            virtual_key == 0x7E ==> key == KeyCode::F15,
            virtual_key == 0x7F ==> key == KeyCode::F16,
            virtual_key == 0x80 ==> key == KeyCode::F17,
            virtual_key == 0x81 ==> key == KeyCode::F18,
            virtual_key == 0x82 ==> key == KeyCode::F19,
            virtual_key == 0x83 ==> key == KeyCode::F20,
            virtual_key == 0x84 ==> key == KeyCode::F21,
            virtual_key == 0x85 ==> key == KeyCode::F22,
            virtual_key == 0x86 ==> key == KeyCode::F23,
            virtual_key == 0x87 ==> key == KeyCode::F24,
            (virtual_key != 0xA0 && virtual_key != 0xA1 && virtual_key != 0xA2 &&
                virtual_key != 0xA3 && virtual_key != 0xA4 && virtual_key != 0xA5 &&
                virtual_key != 0xBB && virtual_key != 0xBC && virtual_key != 0xBD &&
                virtual_key != 0xBE && virtual_key != 0xBA && virtual_key != 0xBF &&
                virtual_key != 0xC0 && virtual_key != 0xDB && virtual_key != 0xDC &&
                virtual_key != 0xDD && virtual_key != 0xDE && virtual_key != 0x08 &&
                virtual_key != 0x09 && virtual_key != 0x0D && virtual_key != 0x13 &&
                virtual_key != 0x1B && virtual_key != 0x20 && virtual_key != 0x21 &&
                virtual_key != 0x22 && virtual_key != 0x23 && virtual_key != 0x24 &&
                virtual_key != 0x25 && virtual_key != 0x26 && virtual_key != 0x27 &&
                virtual_key != 0x28 && virtual_key != 0x2C && virtual_key != 0x2D &&
                virtual_key != 0x2E && virtual_key != 0x14 && virtual_key != 0x90 &&
                virtual_key != 0x91 && virtual_key != 0x30 && virtual_key != 0x31 &&
                virtual_key != 0x32 && virtual_key != 0x33 && virtual_key != 0x34 &&
                virtual_key != 0x35 && virtual_key != 0x36 && virtual_key != 0x37 &&
                virtual_key != 0x38 && virtual_key != 0x39 && virtual_key != 0x41 &&
                virtual_key != 0x42 && virtual_key != 0x43 && virtual_key != 0x44 &&
                virtual_key != 0x45 && virtual_key != 0x46 && virtual_key != 0x47 &&
                virtual_key != 0x48 && virtual_key != 0x49 && virtual_key != 0x4A &&
                virtual_key != 0x4B && virtual_key != 0x4C && virtual_key != 0x4D &&
                virtual_key != 0x4E && virtual_key != 0x4F && virtual_key != 0x50 &&
                virtual_key != 0x51 && virtual_key != 0x52 && virtual_key != 0x53 &&
                virtual_key != 0x54 && virtual_key != 0x55 && virtual_key != 0x56 &&
                virtual_key != 0x57 && virtual_key != 0x58 && virtual_key != 0x59 &&
                virtual_key != 0x5A && virtual_key != 0x60 && virtual_key != 0x61 &&
                virtual_key != 0x62 && virtual_key != 0x63 && virtual_key != 0x64 &&
                virtual_key != 0x65 && virtual_key != 0x66 && virtual_key != 0x67 &&
                virtual_key != 0x68 && virtual_key != 0x69 && virtual_key != 0x6A &&
                virtual_key != 0x6B && virtual_key != 0x6D && virtual_key != 0x6E &&
                virtual_key != 0x6F && virtual_key != 0x70 && virtual_key != 0x71 &&
                virtual_key != 0x72 && virtual_key != 0x73 && virtual_key != 0x74 &&
                virtual_key != 0x75 && virtual_key != 0x76 && virtual_key != 0x77 &&
                virtual_key != 0x78 && virtual_key != 0x79 && virtual_key != 0x7A &&
                virtual_key != 0x7B && virtual_key != 0x7C && virtual_key != 0x7D &&
                virtual_key != 0x7E && virtual_key != 0x7F && virtual_key != 0x80 &&
                virtual_key != 0x81 && virtual_key != 0x82 && virtual_key != 0x83 &&
                virtual_key != 0x84 && virtual_key != 0x85 && virtual_key != 0x86 &&
                virtual_key != 0x87) ==> key == KeyCode::Unknown(virtual_key),
    {
        let key = match virtual_key {
            vk::VK_LSHIFT => KeyCode::LeftShift,
            vk::VK_RSHIFT => KeyCode::RightShift,
            vk::VK_LCONTROL => KeyCode::LeftControl,
            vk::VK_RCONTROL => KeyCode::RightControl,
            vk::VK_LMENU => KeyCode::LeftAlt,
            vk::VK_RMENU => KeyCode::RightAlt,
            vk::VK_OEM_PLUS => KeyCode::Plus,
            vk::VK_OEM_COMMA => KeyCode::Comma,
            vk::VK_OEM_MINUS => KeyCode::Minus,
            vk::VK_OEM_PERIOD => KeyCode::Period,
            vk::VK_OEM_1 => KeyCode::SemiColon,
            vk::VK_OEM_2 => KeyCode::Slash,
            vk::VK_OEM_3 => KeyCode::Tilde,
            vk::VK_OEM_4 => KeyCode::LeftBracket,
            vk::VK_OEM_5 => KeyCode::BackSlash,
            vk::VK_OEM_6 => KeyCode::RightBracket,
            vk::VK_OEM_7 => KeyCode::Quote,
            vk::VK_BACK => KeyCode::Backspace,
            vk::VK_TAB => KeyCode::Tab,
            vk::VK_RETURN => KeyCode::Return,
            vk::VK_PAUSE => KeyCode::Pause,
            vk::VK_ESCAPE => KeyCode::Escape,
            vk::VK_SPACE => KeyCode::Space,
            vk::VK_PRIOR => KeyCode::PageUp,
            vk::VK_NEXT => KeyCode::PageDown,
            vk::VK_END => KeyCode::End,
            vk::VK_HOME => KeyCode::Home,
            vk::VK_LEFT => KeyCode::Left,
            vk::VK_UP => KeyCode::Up,
            vk::VK_RIGHT => KeyCode::Right,
            vk::VK_DOWN => KeyCode::Down,
            vk::VK_SNAPSHOT => KeyCode::PrintScreen,
            vk::VK_INSERT => KeyCode::Insert,
            vk::VK_DELETE => KeyCode::Delete,
            vk::VK_CAPITAL => KeyCode::CapsLock,
            vk::VK_NUMLOCK => KeyCode::NumLock,
            vk::VK_SCROLL => KeyCode::ScrollLock,
            vk::VK_0 => KeyCode::Key0,
            vk::VK_1 => KeyCode::Key1,
            vk::VK_2 => KeyCode::Key2,
            vk::VK_3 => KeyCode::Key3,
            vk::VK_4 => KeyCode::Key4,
            vk::VK_5 => KeyCode::Key5,
            vk::VK_6 => KeyCode::Key6,
            vk::VK_7 => KeyCode::Key7,
            vk::VK_8 => KeyCode::Key8,
            vk::VK_9 => KeyCode::Key9,
            vk::VK_A => KeyCode::A,
            vk::VK_B => KeyCode::B,
            vk::VK_C => KeyCode::C,
            vk::VK_D => KeyCode::D,
            vk::VK_E => KeyCode::E,
            vk::VK_F => KeyCode::F,
            vk::VK_G => KeyCode::G,
            vk::VK_H => KeyCode::H,
            vk::VK_I => KeyCode::I,
            vk::VK_J => KeyCode::J,
            vk::VK_K => KeyCode::K,
            vk::VK_L => KeyCode::L,
            vk::VK_M => KeyCode::M,
            vk::VK_N => KeyCode::N,
            vk::VK_O => KeyCode::O,
            vk::VK_P => KeyCode::P,
            vk::VK_Q => KeyCode::Q,
            vk::VK_R => KeyCode::R,
            vk::VK_S => KeyCode::S,
            vk::VK_T => KeyCode::T,
            vk::VK_U => KeyCode::U,
            vk::VK_V => KeyCode::V,
            vk::VK_W => KeyCode::W,
            vk::VK_X => KeyCode::X,
            vk::VK_Y => KeyCode::Y,
            vk::VK_Z => KeyCode::Z,
            vk::VK_NUMPAD0 => KeyCode::Numpad0,
            vk::VK_NUMPAD1 => KeyCode::Numpad1,
            vk::VK_NUMPAD2 => KeyCode::Numpad2,
            vk::VK_NUMPAD3 => KeyCode::Numpad3,
            vk::VK_NUMPAD4 => KeyCode::Numpad4,
            vk::VK_NUMPAD5 => KeyCode::Numpad5,
            vk::VK_NUMPAD6 => KeyCode::Numpad6,
            vk::VK_NUMPAD7 => KeyCode::Numpad7,
            vk::VK_NUMPAD8 => KeyCode::Numpad8,
            vk::VK_NUMPAD9 => KeyCode::Numpad9,
            vk::VK_MULTIPLY => KeyCode::NumpadMultiply,
            vk::VK_ADD => KeyCode::NumpadPlus,
            vk::VK_SUBTRACT => KeyCode::NumpadMinus,
            vk::VK_DECIMAL => KeyCode::NumpadPeriod,
            vk::VK_DIVIDE => KeyCode::NumpadDivide,
            vk::VK_F1 => KeyCode::F1,
            vk::VK_F2 => KeyCode::F2,
            vk::VK_F3 => KeyCode::F3,
            vk::VK_F4 => KeyCode::F4,
            vk::VK_F5 => KeyCode::F5,
            vk::VK_F6 => KeyCode::F6,
            vk::VK_F7 => KeyCode::F7,
            vk::VK_F8 => KeyCode::F8,
            vk::VK_F9 => KeyCode::F9,
            vk::VK_F10 => KeyCode::F10,
            vk::VK_F11 => KeyCode::F11,
            vk::VK_F12 => KeyCode::F12,
            vk::VK_F13 => KeyCode::F13,
            vk::VK_F14 => KeyCode::F14,
            vk::VK_F15 => KeyCode::F15,
            vk::VK_F16 => KeyCode::F16,
            vk::VK_F17 => KeyCode::F17,
            vk::VK_F18 => KeyCode::F18,
            vk::VK_F19 => KeyCode::F19,
            vk::VK_F20 => KeyCode::F20,
            vk::VK_F21 => KeyCode::F21,
            vk::VK_F22 => KeyCode::F22,
            vk::VK_F23 => KeyCode::F23,
            vk::VK_F24 => KeyCode::F24,
            _ => KeyCode::Unknown(virtual_key),
        };
        proof {
            if key is Unknown {
                assert forall|other: KeyCode| !(other is Unknown) implies #[trigger] other.virtual_key()
                    != virtual_key by {}
            } else {
                assert(key.virtual_key() == virtual_key);
            }
        }
        key
    }
}

/// Whether some named key (not `Unknown`) stands for the virtual-key code `code`.
pub open spec fn is_named_virtual_key(code: usize) -> bool {
    exists|key: KeyCode| !(key is Unknown) && #[trigger] key.virtual_key() == code
}

/// `key` is what the virtual-key code `code` decodes to: it stands for `code`, and it is
/// `Unknown` exactly when no named key stands for `code`.
pub open spec fn decodes_to(code: usize, key: KeyCode) -> bool {
    &&& key.virtual_key() == code
    &&& (key is Unknown <==> !is_named_virtual_key(code))
}

/// No two named keys share a virtual-key code.
pub proof fn lemma_named_keys_distinct(a: KeyCode, b: KeyCode)
    requires
        !(a is Unknown),
        !(b is Unknown),
        a.virtual_key() == b.virtual_key(),
    ensures
        a == b,
{
}

/// A virtual-key code decodes to exactly one key.
pub proof fn lemma_decoding_unique(code: usize, a: KeyCode, b: KeyCode)
    requires
        decodes_to(code, a),
        decodes_to(code, b),
    ensures
        a == b,
{
    if !(a is Unknown) && !(b is Unknown) {
        lemma_named_keys_distinct(a, b);
    }
}

/// Every key is what its own virtual-key code decodes to, save an `Unknown` that holds the
/// code of a named key; so converting the code of a named key gives that key back.
pub proof fn lemma_key_round_trip(key: KeyCode)
    requires
        key is Unknown ==> !is_named_virtual_key(key.virtual_key()),
    ensures
        decodes_to(key.virtual_key(), key),
{
    if !(key is Unknown) {
        assert(is_named_virtual_key(key.virtual_key()));
    }
}

} // verus!
