//! Decoding of the messages that Windows sends to the window procedure.
//!
//! The window procedure itself, which receives the message, forwards the event and
//! calls the default handler, stands outside this library; what it decides stands here.

use vstd::prelude::*;

use super::events::{KeyboardEvent, MouseEvent, WindowEvent};
use super::keycode::{decodes_to, lemma_decoding_unique, lemma_key_round_trip, KeyCode};
use super::vk;

verus! {

/// `WM_DESTROY`: the window is being destroyed.
pub const WM_DESTROY: u32 = 0x0002;
/// `WM_MOVE`: the window has moved; the new position of its client area is in `lparam`.
pub const WM_MOVE: u32 = 0x0003;
/// `WM_SIZE`: the window has been resized; the new client size is in `lparam`.
pub const WM_SIZE: u32 = 0x0005;
/// `WM_ACTIVATE`: the window is activated or deactivated; the low word of `wparam` is the
/// activation state (`WA_INACTIVE`, 0, when deactivated), the high word whether the window
/// is minimized.
pub const WM_ACTIVATE: u32 = 0x0006;
/// `WM_KEYDOWN`: a key was pressed, or is held and repeats.
pub const WM_KEYDOWN: u32 = 0x0100;
/// `WM_KEYUP`: a key was released.
pub const WM_KEYUP: u32 = 0x0101;
/// `WM_MOUSEMOVE`: the cursor moved.
pub const WM_MOUSEMOVE: u32 = 0x0200;
/// `WM_LBUTTONDOWN`: the left mouse button was pressed.
pub const WM_LBUTTONDOWN: u32 = 0x0201;
/// `WM_LBUTTONUP`: the left mouse button was released.
pub const WM_LBUTTONUP: u32 = 0x0202;
/// `WM_RBUTTONDOWN`: the right mouse button was pressed.
pub const WM_RBUTTONDOWN: u32 = 0x0204;
/// `WM_RBUTTONUP`: the right mouse button was released.
pub const WM_RBUTTONUP: u32 = 0x0205;
/// `WM_MBUTTONDOWN`: the middle mouse button was pressed.
pub const WM_MBUTTONDOWN: u32 = 0x0207;
/// `WM_MBUTTONUP`: the middle mouse button was released.
pub const WM_MBUTTONUP: u32 = 0x0208;
/// `MAPVK_VSC_TO_VK_EX`: the `MapVirtualKeyW` mode that turns a scan code into a
/// virtual-key code that tells left from right.
pub const MAPVK_VSC_TO_VK_EX: u32 = 3;

/// What the window procedure does with a message.
#[derive(Debug, Clone, Copy, PartialEq, Eq, Structural)]
pub enum MessageAction {
    /// Send the event to the window's event queue; the message is handled (the
    /// window procedure returns 0).
    Send(WindowEvent),
    /// The key is the generic shift key: look up which shift key it is by passing this scan
    /// code to `MapVirtualKeyW` with `MAPVK_VSC_TO_VK_EX`, then decode the message again
    /// with the result.
    LookUpShift(u32),
    /// The message is not one the window handles: pass it to `DefWindowProcW`.
    Default,
}

/// The activation state of a `WM_ACTIVATE` message: the low word of `wparam`
/// (`WA_INACTIVE` is 0, `WA_ACTIVE` 1, `WA_CLICKACTIVE` 2).
pub open spec fn activation_state(wparam: usize) -> int {
    wparam as int % 0x10000
}

/// The low 16 bits of `lparam` (`LOWORD`).
pub open spec fn low_word(lparam: isize) -> u16 {
    (lparam as int % 0x10000) as u16
}

/// Bits 16 to 31 of `lparam` (`HIWORD`).
pub open spec fn high_word(lparam: isize) -> u16 {
    ((lparam as int / 0x10000) % 0x10000) as u16
}

/// A 16-bit word read as a two's complement number (`GET_X_LPARAM` and `GET_Y_LPARAM`).
pub open spec fn as_signed(word: u16) -> i16 {
    if word < 0x8000 {
        word as i16
    } else {
        (word - 0x10000) as i16
    }
}

/// The scan code of a key message: bits 16 to 23 of `lparam`.
pub open spec fn scan_code(lparam: isize) -> u32 {
    ((lparam as int / 0x10000) % 0x100) as u32
}

/// Whether a key message is for an extended key (bit 24 of `lparam`), such as the right
/// control and alt keys.
pub open spec fn is_extended_key(lparam: isize) -> bool {
    (lparam as int / 0x100_0000) % 2 == 1
}

/// Whether the key was already down before this message (bit 30 of `lparam`): the message
/// repeats a held key.
pub open spec fn was_key_down(lparam: isize) -> bool {
    (lparam as int / 0x4000_0000) % 2 == 1
}

/// The virtual-key code of a key message once generic modifier keys are told left from
/// right; `shift_key` is what the shift key's scan code maps to.
pub open spec fn sided_virtual_key(wparam: usize, lparam: isize, shift_key: u32) -> usize {
    if wparam == vk::VK_SHIFT {
        shift_key as usize
    } else if wparam == vk::VK_CONTROL {
        if is_extended_key(lparam) {
            vk::VK_RCONTROL
        } else {
            vk::VK_LCONTROL
        }
    } else if wparam == vk::VK_MENU {
        if is_extended_key(lparam) {
            vk::VK_RMENU
        } else {
            vk::VK_LMENU
        }
    } else {
        wparam
    }
}

/// The mouse event that a message stands for, if any.
pub open spec fn mouse_event_for(msg: u32) -> Option<MouseEvent> {
    if msg == WM_MOUSEMOVE {
        Some(MouseEvent::Move)
    } else if msg == WM_LBUTTONDOWN {
        Some(MouseEvent::LeftButtonDown)
    } else if msg == WM_LBUTTONUP {
        Some(MouseEvent::LeftButtonUp)
    } else if msg == WM_RBUTTONDOWN {
        Some(MouseEvent::RightButtonDown)
    } else if msg == WM_RBUTTONUP {
        Some(MouseEvent::RightButtonUp)
    } else if msg == WM_MBUTTONDOWN {
        Some(MouseEvent::MiddleButtonDown)
    } else if msg == WM_MBUTTONUP {
        Some(MouseEvent::MiddleButtonUp)
    } else {
        None
    }
}

/// Whether `msg` is a key message.
pub open spec fn is_key_message(msg: u32) -> bool {
    msg == WM_KEYDOWN || msg == WM_KEYUP
}

/// The kind of keyboard event that a key message reports.
pub open spec fn key_state(msg: u32, lparam: isize) -> KeyboardEvent {
    if msg == WM_KEYUP {
        KeyboardEvent::Released
    } else if was_key_down(lparam) {
        KeyboardEvent::Repeated
    } else {
        KeyboardEvent::Pressed
    }
}

/// Whether the window handles `msg` itself.
pub open spec fn is_handled_message(msg: u32) -> bool {
    ||| msg == WM_ACTIVATE
    ||| msg == WM_DESTROY
    ||| msg == WM_SIZE
    ||| msg == WM_MOVE
    ||| is_key_message(msg)
    ||| mouse_event_for(msg) is Some
}

/// The width and height that a `WM_SIZE` message carries: the low and high words of
/// `lparam`.
pub fn size_from_lparam(lparam: isize) -> (size: (u16, u16))
    ensures
        size == (low_word(lparam), high_word(lparam)),
{
    let width = #[verifier::truncate] (lparam as u16);
    let height = #[verifier::truncate] ((lparam >> 16) as u16);
    assert(width == (lparam & 0xffff) as u16) by (bit_vector)
        requires
            width == #[verifier::truncate] (lparam as u16),
    ;
    assert((lparam & 0xffff) as int == lparam as int % 0x10000) by (bit_vector);
    assert((lparam >> 16) as int == lparam as int / 0x10000) by (bit_vector);
    assert(height as int == (lparam >> 16) as int % 0x10000) by (bit_vector)
        requires
            height == #[verifier::truncate] ((lparam >> 16) as u16),
    ;
    (width, height)
}

/// The signed x and y coordinates that a `WM_MOVE` or mouse message carries: the low and
/// high words of `lparam`, each read as a two's complement number.
pub fn point_from_lparam(lparam: isize) -> (point: (i16, i16))
    ensures
        point == (as_signed(low_word(lparam)), as_signed(high_word(lparam))),
{
    let x = #[verifier::truncate] (lparam as i16);
    let y = #[verifier::truncate] ((lparam >> 16) as i16);
    assert(x as int == if (lparam & 0xffff) < 0x8000 {
        (lparam & 0xffff) as int
    } else {
        (lparam & 0xffff) as int - 0x10000
    }) by (bit_vector)
        requires
            x == #[verifier::truncate] (lparam as i16),
    ;
    assert((lparam & 0xffff) as int == lparam as int % 0x10000) by (bit_vector);
    assert(y as int == if ((lparam >> 16) & 0xffff) < 0x8000 {
        ((lparam >> 16) & 0xffff) as int
    } else {
        ((lparam >> 16) & 0xffff) as int - 0x10000
    }) by (bit_vector)
        requires
            y == #[verifier::truncate] ((lparam >> 16) as i16),
    ;
    assert(((lparam >> 16) & 0xffff) as int == (lparam as int / 0x10000) % 0x10000)
        by (bit_vector);
    (x, y)
}

/// Map a Windows virtual key to its left/right version: the generic control and alt keys
/// become the left or right one by the extended-key bit of `lparam`, and the generic shift
/// key becomes `shift_key`, what `MapVirtualKeyW` gave for the key's scan code.
pub fn map_keycode(wparam: usize, lparam: isize, shift_key: u32) -> (code: usize)
    ensures
        code == sided_virtual_key(wparam, lparam, shift_key),
        wparam != 0x10 && wparam != 0x11 && wparam != 0x12 ==> code == wparam,
        wparam == 0x10 ==> code == shift_key as usize,
        wparam == 0x11 ==> code == (if (lparam as int / 0x100_0000) % 2 == 1 {
            0xA3usize
        } else {
            0xA2usize
        }),
        wparam == 0x12 ==> code == (if (lparam as int / 0x100_0000) % 2 == 1 {
            0xA5usize
        } else {
            0xA4usize
        }),
{
    let extended = (lparam & 0x0100_0000) != 0;
    assert(((lparam & 0x0100_0000) != 0) == ((lparam as int / 0x100_0000) % 2 == 1))
        by (bit_vector);
    if wparam == vk::VK_SHIFT {
        shift_key as usize
    } else if wparam == vk::VK_CONTROL {
        if extended {
            vk::VK_RCONTROL
        } else {
            vk::VK_LCONTROL
        }
    } else if wparam == vk::VK_MENU {
        if extended {
            vk::VK_RMENU
        } else {
            vk::VK_LMENU
        }
    } else {
        wparam
    }
}

fn mouse_event_of(msg: u32) -> (event: Option<MouseEvent>)
    ensures
        event == mouse_event_for(msg),
{
    if msg == WM_MOUSEMOVE {
        Some(MouseEvent::Move)
    } else if msg == WM_LBUTTONDOWN {
        Some(MouseEvent::LeftButtonDown)
    } else if msg == WM_LBUTTONUP {
        Some(MouseEvent::LeftButtonUp)
    } else if msg == WM_RBUTTONDOWN {
        Some(MouseEvent::RightButtonDown)
    } else if msg == WM_RBUTTONUP {
        Some(MouseEvent::RightButtonUp)
    } else if msg == WM_MBUTTONDOWN {
        Some(MouseEvent::MiddleButtonDown)
    } else if msg == WM_MBUTTONUP {
        Some(MouseEvent::MiddleButtonUp)
    } else {
        None
    }
}

/// Decide what the window procedure does with the message `msg` and its parameters.
/// `shift_key` is what `MapVirtualKeyW` gave for the scan code of a shift key message,
/// once looked up (`None` before).
pub fn decode_message(msg: u32, wparam: usize, lparam: isize, shift_key: Option<u32>) -> (action:
    MessageAction)
    ensures
        msg == WM_ACTIVATE ==> action == MessageAction::Send(
            WindowEvent::Focused(activation_state(wparam) != 0),
        ),
        msg == WM_DESTROY ==> action == MessageAction::Send(WindowEvent::Closed),
        msg == WM_SIZE ==> action == MessageAction::Send(
            WindowEvent::Resized(low_word(lparam), high_word(lparam)),
        ),
        msg == WM_MOVE ==> action == MessageAction::Send(
            WindowEvent::Moved(as_signed(low_word(lparam)), as_signed(high_word(lparam))),
        ),
        is_key_message(msg) && wparam == vk::VK_SHIFT && shift_key is None ==> action
            == MessageAction::LookUpShift(scan_code(lparam)),
        is_key_message(msg) && !(wparam == vk::VK_SHIFT && shift_key is None) ==> {
            &&& action matches MessageAction::Send(WindowEvent::KeyboardInput(key, state))
            &&& decodes_to(
                sided_virtual_key(
                    wparam,
                    lparam,
                    match shift_key {
                        Some(shift) => shift,
                        None => 0,
                    },
                ),
                key,
            )
            &&& state == key_state(msg, lparam)
        },
        mouse_event_for(msg) matches Some(event) ==> action == MessageAction::Send(
            WindowEvent::MouseInput(
                event,
                as_signed(low_word(lparam)),
                as_signed(high_word(lparam)),
            ),
        ),
        !is_handled_message(msg) ==> action == MessageAction::Default,
        shift_key is Some ==> !(action is LookUpShift),
        !(msg == 0x0002 || msg == 0x0003 || msg == 0x0005 || msg == 0x0006 || msg == 0x0100
            || msg == 0x0101 || msg == 0x0200 || msg == 0x0201 || msg == 0x0202 || msg == 0x0204
            || msg == 0x0205 || msg == 0x0207 || msg == 0x0208) ==> action == MessageAction::Default,
        (msg == 0x0002 || msg == 0x0003 || msg == 0x0005 || msg == 0x0006 || msg == 0x0100
            || msg == 0x0101 || msg == 0x0200 || msg == 0x0201 || msg == 0x0202 || msg == 0x0204
            || msg == 0x0205 || msg == 0x0207 || msg == 0x0208) ==> action != MessageAction::Default,
        action matches MessageAction::LookUpShift(scan) ==> {
            &&& msg == 0x0100 || msg == 0x0101
            &&& wparam == 0x10
            &&& shift_key is None
            &&& scan as int == (lparam as int / 0x10000) % 0x100
        },
        action matches MessageAction::Send(WindowEvent::Focused(focused)) ==> msg == 0x0006
            && focused == (wparam as int % 0x10000 != 0),
        action == MessageAction::Send(WindowEvent::Closed) ==> msg == 0x0002,
        action matches MessageAction::Send(WindowEvent::Resized(width, height)) ==> msg == 0x0005
            && width as int == lparam as int % 0x10000 && height as int == (lparam as int / 0x10000) % 0x10000,
        action matches MessageAction::Send(WindowEvent::Moved(x, y)) ==> msg == 0x0003
            && x as int == (if lparam as int % 0x10000 >= 0x8000 { lparam as int % 0x10000 - 0x10000 } else { lparam as int % 0x10000 })
            && y as int == (if (lparam as int / 0x10000) % 0x10000 >= 0x8000 { (lparam as int / 0x10000) % 0x10000 - 0x10000 } else { (lparam as int / 0x10000) % 0x10000 }),
        action matches MessageAction::Send(WindowEvent::MouseInput(event, x, y)) ==> {
            &&& (msg == 0x0200 && event == MouseEvent::Move)
                || (msg == 0x0201 && event == MouseEvent::LeftButtonDown)
                || (msg == 0x0202 && event == MouseEvent::LeftButtonUp)
                || (msg == 0x0204 && event == MouseEvent::RightButtonDown)
                || (msg == 0x0205 && event == MouseEvent::RightButtonUp)
                || (msg == 0x0207 && event == MouseEvent::MiddleButtonDown)
                || (msg == 0x0208 && event == MouseEvent::MiddleButtonUp)
            &&& x as int == (if lparam as int % 0x10000 >= 0x8000 { lparam as int % 0x10000 - 0x10000 } else { lparam as int % 0x10000 })
            &&& y as int == (if (lparam as int / 0x10000) % 0x10000 >= 0x8000 { (lparam as int / 0x10000) % 0x10000 - 0x10000 } else { (lparam as int / 0x10000) % 0x10000 })
        },
        action matches MessageAction::Send(WindowEvent::KeyboardInput(key, state)) ==> {
            &&& msg == 0x0100 || msg == 0x0101
            &&& state == (if msg == 0x0101 {
                KeyboardEvent::Released
            } else if (lparam as int / 0x4000_0000) % 2 == 1 {
                KeyboardEvent::Repeated
            } else {
                KeyboardEvent::Pressed
            })
            &&& wparam != 0x10 && wparam != 0x11 && wparam != 0x12 ==> decodes_to(wparam, key)
            &&& wparam == 0x10 ==> (shift_key matches Some(shift) && decodes_to(shift as usize, key))
            &&& wparam == 0x11 ==> decodes_to(
                if (lparam as int / 0x100_0000) % 2 == 1 {
                    0xA3usize
                } else {
                    0xA2usize
                },
                key,
            )
            &&& wparam == 0x12 ==> decodes_to(
                if (lparam as int / 0x100_0000) % 2 == 1 {
                    0xA5usize
                } else {
                    0xA4usize
                },
                key,
            )
        },
{
    if msg == WM_ACTIVATE {
        assert(((wparam & 0xffff) != 0) == (wparam as int % 0x10000 != 0)) by (bit_vector);
        MessageAction::Send(WindowEvent::Focused((wparam & 0xffff) != 0))
    } else if msg == WM_DESTROY {
        MessageAction::Send(WindowEvent::Closed)
    } else if msg == WM_SIZE {
        let (width, height) = size_from_lparam(lparam);
        MessageAction::Send(WindowEvent::Resized(width, height))
    } else if msg == WM_MOVE {
        let (x, y) = point_from_lparam(lparam);
        MessageAction::Send(WindowEvent::Moved(x, y))
    } else if msg == WM_KEYDOWN || msg == WM_KEYUP {
        let shift = match shift_key {
            Some(shift) => shift,
            None => {
                if wparam == vk::VK_SHIFT {
                    let scan = ((lparam & 0x00ff_0000) >> 16) as u32;
                    assert(((lparam & 0x00ff_0000) >> 16) as int == (lparam as int / 0x10000)
                        % 0x100) by (bit_vector);
                    return MessageAction::LookUpShift(scan);
                }
                0
            },
        };
        let key = KeyCode::from_virtual_key(map_keycode(wparam, lparam, shift));
        let state = if msg == WM_KEYUP {
            KeyboardEvent::Released
        } else {
            assert(((lparam & (1isize << 30)) == 0) == ((lparam as int / 0x4000_0000) % 2 == 0))
                by (bit_vector);
            if (lparam & (1isize << 30)) == 0 {
                KeyboardEvent::Pressed
            } else {
                KeyboardEvent::Repeated
            }
        };
        MessageAction::Send(WindowEvent::KeyboardInput(key, state))
    } else {
        match mouse_event_of(msg) {
            Some(event) => {
                let (x, y) = point_from_lparam(lparam);
                MessageAction::Send(WindowEvent::MouseInput(event, x, y))
            },
            None => MessageAction::Default,
        }
    }
}

/// A 16-bit two's complement number as the word that holds it.
pub open spec fn as_unsigned(value: i16) -> u16 {
    if value >= 0 {
        value as u16
    } else {
        (value + 0x10000) as u16
    }
}

/// The 32-bit value that packs `low` into its low word and `high` into its high word
/// (`MAKELONG`, `MAKELPARAM`).
pub open spec fn packed(low: u16, high: u16) -> int {
    low + 0x10000 * high
}

/// The coordinates that a move or mouse event reports are the signed words that Windows
/// packed into `lparam`, and the size that a resize event reports is the pair of words;
/// only the low 32 bits of `lparam` matter.
pub proof fn lemma_lparam_words_round_trip(x: i16, y: i16, lparam: isize)
    requires
        lparam as int % 0x1_0000_0000 == packed(as_unsigned(x), as_unsigned(y)),
    ensures
        low_word(lparam) == as_unsigned(x),
        high_word(lparam) == as_unsigned(y),
        as_signed(low_word(lparam)) == x,
        as_signed(high_word(lparam)) == y,
{
    let l = lparam as int;
    let lo = as_unsigned(x) as int;
    let hi = as_unsigned(y) as int;
    let q = l / 0x1_0000_0000;
    assert(l == 0x1_0000_0000 * q + lo + 0x10000 * hi);
    assert(l % 0x10000 == lo) by (nonlinear_arith)
        requires
            l == 0x1_0000_0000 * q + lo + 0x10000 * hi,
            0 <= lo < 0x10000,
    ;
    assert(l / 0x10000 == 0x10000 * q + hi) by (nonlinear_arith)
        requires
            l == 0x1_0000_0000 * q + lo + 0x10000 * hi,
            0 <= lo < 0x10000,
    ;
    assert((0x10000 * q + hi) % 0x10000 == hi) by (nonlinear_arith)
        requires
            0 <= hi < 0x10000,
    ;
}

/// Once decoded, a key message for a generic modifier key names the left or right key:
/// the control and alt keys by the extended-key bit, the shift key by what its scan code
/// maps to, when that is one of the two shift keys.
pub proof fn lemma_modifier_keys_sided(wparam: usize, lparam: isize, shift_key: u32, key: KeyCode)
    requires
        decodes_to(sided_virtual_key(wparam, lparam, shift_key), key),
    ensures
        wparam == vk::VK_CONTROL ==> key == (if is_extended_key(lparam) {
            KeyCode::RightControl
        } else {
            KeyCode::LeftControl
        }),
        wparam == vk::VK_MENU ==> key == (if is_extended_key(lparam) {
            KeyCode::RightAlt
        } else {
            KeyCode::LeftAlt
        }),
        wparam == vk::VK_SHIFT && shift_key as usize == vk::VK_LSHIFT ==> key
            == KeyCode::LeftShift,
        wparam == vk::VK_SHIFT && shift_key as usize == vk::VK_RSHIFT ==> key
            == KeyCode::RightShift,
{
    let code = sided_virtual_key(wparam, lparam, shift_key);
    if code == vk::VK_RCONTROL {
        lemma_key_round_trip(KeyCode::RightControl);
        lemma_decoding_unique(code, key, KeyCode::RightControl);
    } else if code == vk::VK_LCONTROL {
        lemma_key_round_trip(KeyCode::LeftControl);
        lemma_decoding_unique(code, key, KeyCode::LeftControl);
    } else if code == vk::VK_RMENU {
        lemma_key_round_trip(KeyCode::RightAlt);
        lemma_decoding_unique(code, key, KeyCode::RightAlt);
    } else if code == vk::VK_LMENU {
        lemma_key_round_trip(KeyCode::LeftAlt);
        lemma_decoding_unique(code, key, KeyCode::LeftAlt);
    } else if code == vk::VK_LSHIFT {
        lemma_key_round_trip(KeyCode::LeftShift);
        lemma_decoding_unique(code, key, KeyCode::LeftShift);
    } else if code == vk::VK_RSHIFT {
        lemma_key_round_trip(KeyCode::RightShift);
        lemma_decoding_unique(code, key, KeyCode::RightShift);
    }
}

/// The window handles exactly the thirteen messages `WM_DESTROY`, `WM_MOVE`, `WM_SIZE`,
/// `WM_ACTIVATE`, `WM_KEYDOWN`, `WM_KEYUP` and the seven client-area mouse messages; key
/// events come only from the two key messages, mouse events only from the seven mouse
/// messages, each with its own button.
pub proof fn lemma_handled_messages(msg: u32)
    ensures
        is_handled_message(msg) <==> (msg == 0x0002 || msg == 0x0003 || msg == 0x0005 || msg
            == 0x0006 || msg == 0x0100 || msg == 0x0101 || msg == 0x0200 || msg == 0x0201 || msg
            == 0x0202 || msg == 0x0204 || msg == 0x0205 || msg == 0x0207 || msg == 0x0208),
        is_key_message(msg) <==> (msg == 0x0100 || msg == 0x0101),
        mouse_event_for(msg) is Some <==> (msg == 0x0200 || msg == 0x0201 || msg == 0x0202 || msg
            == 0x0204 || msg == 0x0205 || msg == 0x0207 || msg == 0x0208),
        mouse_event_for(msg) == Some(MouseEvent::Move) <==> msg == 0x0200,
        mouse_event_for(msg) == Some(MouseEvent::LeftButtonDown) <==> msg == 0x0201,
        mouse_event_for(msg) == Some(MouseEvent::LeftButtonUp) <==> msg == 0x0202,
        mouse_event_for(msg) == Some(MouseEvent::RightButtonDown) <==> msg == 0x0204,
        mouse_event_for(msg) == Some(MouseEvent::RightButtonUp) <==> msg == 0x0205,
        mouse_event_for(msg) == Some(MouseEvent::MiddleButtonDown) <==> msg == 0x0207,
        mouse_event_for(msg) == Some(MouseEvent::MiddleButtonUp) <==> msg == 0x0208,
{
}

/// Only the generic shift (0x10), control (0x11) and alt (0x12) keys are told left from
/// right: control and alt by the extended-key bit (bit 24 of `lparam`), shift by what its
/// scan code maps to; every other virtual-key code is kept as it is.
pub proof fn lemma_sided_virtual_key(wparam: usize, lparam: isize, shift_key: u32)
    ensures
        wparam != 0x10 && wparam != 0x11 && wparam != 0x12 ==> sided_virtual_key(
            wparam,
            lparam,
            shift_key,
        ) == wparam,
        wparam == 0x10 ==> sided_virtual_key(wparam, lparam, shift_key) == shift_key as usize,
        wparam == 0x11 ==> sided_virtual_key(wparam, lparam, shift_key) == (if (lparam as int
            / 0x100_0000) % 2 == 1 {
            0xA3usize
        } else {
            0xA2usize
        }),
        wparam == 0x12 ==> sided_virtual_key(wparam, lparam, shift_key) == (if (lparam as int
            / 0x100_0000) % 2 == 1 {
            0xA5usize
        } else {
            0xA4usize
        }),
{
}

/// A key-up message is a release; a key-down message is a press, or a repeat when the key
/// was already down (bit 30 of `lparam`).
pub proof fn lemma_key_state(msg: u32, lparam: isize)
    requires
        msg == 0x0100 || msg == 0x0101,
    ensures
        msg == 0x0101 ==> key_state(msg, lparam) == KeyboardEvent::Released,
        msg == 0x0100 && (lparam as int / 0x4000_0000) % 2 == 0 ==> key_state(msg, lparam)
            == KeyboardEvent::Pressed,
        msg == 0x0100 && (lparam as int / 0x4000_0000) % 2 == 1 ==> key_state(msg, lparam)
            == KeyboardEvent::Repeated,
{
}

/// The fields of `lparam` and `wparam` that messages carry: the low word and the next word
/// of `lparam` as unsigned numbers in `[0, 0x10000)`, or as two's complement numbers in
/// `[-0x8000, 0x8000)` congruent to them; the scan code in bits 16 to 23; the activation
/// state in the low word of `wparam`.
pub proof fn lemma_message_fields(wparam: usize, lparam: isize)
    ensures
        low_word(lparam) as int == lparam as int % 0x10000,
        high_word(lparam) as int == (lparam as int / 0x10000) % 0x10000,
        -0x8000 <= as_signed(low_word(lparam)) < 0x8000,
        (as_signed(low_word(lparam)) - low_word(lparam)) % 0x10000 == 0,
        -0x8000 <= as_signed(high_word(lparam)) < 0x8000,
        (as_signed(high_word(lparam)) - high_word(lparam)) % 0x10000 == 0,
        scan_code(lparam) as int == (lparam as int / 0x10000) % 0x100,
        activation_state(wparam) == wparam as int % 0x10000,
{
}

} // verus!
