//! Numeric values of the Win32 and Direct3D constants that the window logic works with.
use vstd::prelude::*;

verus! {
// Virtual-key codes (a `WPARAM` of keyboard messages).
/// Generic shift key.
pub const VK_SHIFT: usize = 0x10;
/// Generic control key.
pub const VK_CONTROL: usize = 0x11;
/// Generic alt key.
pub const VK_MENU: usize = 0x12;
/// Virtual-key code of `KeyCode::LeftShift`.
pub const VK_LSHIFT: usize = 0xA0;
/// Virtual-key code of `KeyCode::RightShift`.
pub const VK_RSHIFT: usize = 0xA1;
/// Virtual-key code of `KeyCode::LeftControl`.
pub const VK_LCONTROL: usize = 0xA2;
/// Virtual-key code of `KeyCode::RightControl`.
pub const VK_RCONTROL: usize = 0xA3;
/// Virtual-key code of `KeyCode::LeftAlt`.
pub const VK_LMENU: usize = 0xA4;
/// Virtual-key code of `KeyCode::RightAlt`.
pub const VK_RMENU: usize = 0xA5;
/// Virtual-key code of `KeyCode::Plus`.
pub const VK_OEM_PLUS: usize = 0xBB;
/// Virtual-key code of `KeyCode::Comma`.
pub const VK_OEM_COMMA: usize = 0xBC;
/// Virtual-key code of `KeyCode::Minus`.
pub const VK_OEM_MINUS: usize = 0xBD;
/// Virtual-key code of `KeyCode::Period`.
pub const VK_OEM_PERIOD: usize = 0xBE;
/// Virtual-key code of `KeyCode::SemiColon`.
pub const VK_OEM_1: usize = 0xBA;
/// Virtual-key code of `KeyCode::Slash`.
pub const VK_OEM_2: usize = 0xBF;
/// Virtual-key code of `KeyCode::Tilde`.
pub const VK_OEM_3: usize = 0xC0;
/// Virtual-key code of `KeyCode::LeftBracket`.
pub const VK_OEM_4: usize = 0xDB;
/// Virtual-key code of `KeyCode::BackSlash`.
pub const VK_OEM_5: usize = 0xDC;
/// Virtual-key code of `KeyCode::RightBracket`.
pub const VK_OEM_6: usize = 0xDD;
/// Virtual-key code of `KeyCode::Quote`.
pub const VK_OEM_7: usize = 0xDE;
/// Virtual-key code of `KeyCode::Backspace`.
pub const VK_BACK: usize = 0x08;
/// Virtual-key code of `KeyCode::Tab`.
pub const VK_TAB: usize = 0x09;
/// Virtual-key code of `KeyCode::Return`.
pub const VK_RETURN: usize = 0x0D;
/// Virtual-key code of `KeyCode::Pause`.
pub const VK_PAUSE: usize = 0x13;
/// Virtual-key code of `KeyCode::Escape`.
pub const VK_ESCAPE: usize = 0x1B;
/// Virtual-key code of `KeyCode::Space`.
pub const VK_SPACE: usize = 0x20;
/// Virtual-key code of `KeyCode::PageUp`.
pub const VK_PRIOR: usize = 0x21;
/// Virtual-key code of `KeyCode::PageDown`.
pub const VK_NEXT: usize = 0x22;
/// Virtual-key code of `KeyCode::End`.
pub const VK_END: usize = 0x23;
/// Virtual-key code of `KeyCode::Home`.
pub const VK_HOME: usize = 0x24;
/// Virtual-key code of `KeyCode::Left`.
pub const VK_LEFT: usize = 0x25;
/// Virtual-key code of `KeyCode::Up`.
pub const VK_UP: usize = 0x26;
/// Virtual-key code of `KeyCode::Right`.
pub const VK_RIGHT: usize = 0x27;
/// Virtual-key code of `KeyCode::Down`.
pub const VK_DOWN: usize = 0x28;
/// Virtual-key code of `KeyCode::PrintScreen`.
pub const VK_SNAPSHOT: usize = 0x2C;
/// Virtual-key code of `KeyCode::Insert`.
pub const VK_INSERT: usize = 0x2D;
/// Virtual-key code of `KeyCode::Delete`.
pub const VK_DELETE: usize = 0x2E;
/// Virtual-key code of `KeyCode::CapsLock`.
pub const VK_CAPITAL: usize = 0x14;
/// Virtual-key code of `KeyCode::NumLock`.
pub const VK_NUMLOCK: usize = 0x90;
/// Virtual-key code of `KeyCode::ScrollLock`.
pub const VK_SCROLL: usize = 0x91;
/// Virtual-key code of `KeyCode::Key0`.
pub const VK_0: usize = 0x30;
/// Virtual-key code of `KeyCode::Key1`.
pub const VK_1: usize = 0x31;
/// Virtual-key code of `KeyCode::Key2`.
pub const VK_2: usize = 0x32;
/// Virtual-key code of `KeyCode::Key3`.
pub const VK_3: usize = 0x33;
/// Virtual-key code of `KeyCode::Key4`.
pub const VK_4: usize = 0x34;
/// Virtual-key code of `KeyCode::Key5`.
pub const VK_5: usize = 0x35;
/// Virtual-key code of `KeyCode::Key6`.
pub const VK_6: usize = 0x36;
/// Virtual-key code of `KeyCode::Key7`.
pub const VK_7: usize = 0x37;
/// Virtual-key code of `KeyCode::Key8`.
pub const VK_8: usize = 0x38;
/// Virtual-key code of `KeyCode::Key9`.
pub const VK_9: usize = 0x39;
/// Virtual-key code of `KeyCode::A`.
pub const VK_A: usize = 0x41;
/// Virtual-key code of `KeyCode::B`.
pub const VK_B: usize = 0x42;
/// Virtual-key code of `KeyCode::C`.
pub const VK_C: usize = 0x43;
/// Virtual-key code of `KeyCode::D`.
pub const VK_D: usize = 0x44;
/// Virtual-key code of `KeyCode::E`.
pub const VK_E: usize = 0x45;
/// Virtual-key code of `KeyCode::F`.
pub const VK_F: usize = 0x46;
/// Virtual-key code of `KeyCode::G`.
pub const VK_G: usize = 0x47;
/// Virtual-key code of `KeyCode::H`.
pub const VK_H: usize = 0x48;
/// Virtual-key code of `KeyCode::I`.
pub const VK_I: usize = 0x49;
/// Virtual-key code of `KeyCode::J`.
pub const VK_J: usize = 0x4A;
/// Virtual-key code of `KeyCode::K`.
pub const VK_K: usize = 0x4B;
/// Virtual-key code of `KeyCode::L`.
pub const VK_L: usize = 0x4C;
/// Virtual-key code of `KeyCode::M`.
pub const VK_M: usize = 0x4D;
/// Virtual-key code of `KeyCode::N`.
pub const VK_N: usize = 0x4E;
/// Virtual-key code of `KeyCode::O`.
pub const VK_O: usize = 0x4F;
/// Virtual-key code of `KeyCode::P`.
pub const VK_P: usize = 0x50;
/// Virtual-key code of `KeyCode::Q`.
pub const VK_Q: usize = 0x51;
/// Virtual-key code of `KeyCode::R`.
pub const VK_R: usize = 0x52;
/// Virtual-key code of `KeyCode::S`.
pub const VK_S: usize = 0x53;
/// Virtual-key code of `KeyCode::T`.
pub const VK_T: usize = 0x54;
/// Virtual-key code of `KeyCode::U`.
pub const VK_U: usize = 0x55;
/// Virtual-key code of `KeyCode::V`.
pub const VK_V: usize = 0x56;
/// Virtual-key code of `KeyCode::W`.
pub const VK_W: usize = 0x57;
/// Virtual-key code of `KeyCode::X`.
pub const VK_X: usize = 0x58;
/// Virtual-key code of `KeyCode::Y`.
pub const VK_Y: usize = 0x59;
/// Virtual-key code of `KeyCode::Z`.
pub const VK_Z: usize = 0x5A;
/// Virtual-key code of `KeyCode::Numpad0`.
pub const VK_NUMPAD0: usize = 0x60;
/// Virtual-key code of `KeyCode::Numpad1`.
pub const VK_NUMPAD1: usize = 0x61;
/// Virtual-key code of `KeyCode::Numpad2`.
pub const VK_NUMPAD2: usize = 0x62;
/// Virtual-key code of `KeyCode::Numpad3`.
pub const VK_NUMPAD3: usize = 0x63;
/// Virtual-key code of `KeyCode::Numpad4`.
pub const VK_NUMPAD4: usize = 0x64;
/// Virtual-key code of `KeyCode::Numpad5`.
pub const VK_NUMPAD5: usize = 0x65;
/// Virtual-key code of `KeyCode::Numpad6`.
pub const VK_NUMPAD6: usize = 0x66;
/// Virtual-key code of `KeyCode::Numpad7`.
pub const VK_NUMPAD7: usize = 0x67;
/// Virtual-key code of `KeyCode::Numpad8`.
pub const VK_NUMPAD8: usize = 0x68;
/// Virtual-key code of `KeyCode::Numpad9`.
pub const VK_NUMPAD9: usize = 0x69;
/// Virtual-key code of `KeyCode::NumpadMultiply`.
pub const VK_MULTIPLY: usize = 0x6A;
/// Virtual-key code of `KeyCode::NumpadPlus`.
pub const VK_ADD: usize = 0x6B;
/// Virtual-key code of `KeyCode::NumpadMinus`.
pub const VK_SUBTRACT: usize = 0x6D;
/// Virtual-key code of `KeyCode::NumpadPeriod`.
pub const VK_DECIMAL: usize = 0x6E;
/// Virtual-key code of `KeyCode::NumpadDivide`.
pub const VK_DIVIDE: usize = 0x6F;
/// Virtual-key code of `KeyCode::F1`.
pub const VK_F1: usize = 0x70;
/// Virtual-key code of `KeyCode::F2`.
pub const VK_F2: usize = 0x71;
/// Virtual-key code of `KeyCode::F3`.
pub const VK_F3: usize = 0x72;
/// Virtual-key code of `KeyCode::F4`.
pub const VK_F4: usize = 0x73;
/// Virtual-key code of `KeyCode::F5`.
pub const VK_F5: usize = 0x74;
/// Virtual-key code of `KeyCode::F6`.
pub const VK_F6: usize = 0x75;
/// Virtual-key code of `KeyCode::F7`.
pub const VK_F7: usize = 0x76;
/// Virtual-key code of `KeyCode::F8`.
pub const VK_F8: usize = 0x77;
/// Virtual-key code of `KeyCode::F9`.
pub const VK_F9: usize = 0x78;
/// Virtual-key code of `KeyCode::F10`.
pub const VK_F10: usize = 0x79;
/// Virtual-key code of `KeyCode::F11`.
pub const VK_F11: usize = 0x7A;
/// Virtual-key code of `KeyCode::F12`.
pub const VK_F12: usize = 0x7B;
/// Virtual-key code of `KeyCode::F13`.
pub const VK_F13: usize = 0x7C;
/// Virtual-key code of `KeyCode::F14`.
pub const VK_F14: usize = 0x7D;
/// Virtual-key code of `KeyCode::F15`.
pub const VK_F15: usize = 0x7E;
/// Virtual-key code of `KeyCode::F16`.
pub const VK_F16: usize = 0x7F;
/// Virtual-key code of `KeyCode::F17`.
pub const VK_F17: usize = 0x80;
/// Virtual-key code of `KeyCode::F18`.
pub const VK_F18: usize = 0x81;
/// Virtual-key code of `KeyCode::F19`.
pub const VK_F19: usize = 0x82;
/// Virtual-key code of `KeyCode::F20`.
pub const VK_F20: usize = 0x83;
/// Virtual-key code of `KeyCode::F21`.
pub const VK_F21: usize = 0x84;
/// Virtual-key code of `KeyCode::F22`.
pub const VK_F22: usize = 0x85;
/// Virtual-key code of `KeyCode::F23`.
pub const VK_F23: usize = 0x86;
/// Virtual-key code of `KeyCode::F24`.
pub const VK_F24: usize = 0x87;

} // verus!
