use directx::window::message::{
    map_keycode, point_from_lparam, size_from_lparam, WM_ACTIVATE,
    WM_DESTROY, WM_KEYDOWN, WM_KEYUP, WM_LBUTTONDOWN, WM_LBUTTONUP, WM_MBUTTONDOWN,
    WM_MBUTTONUP, WM_MOUSEMOVE, WM_MOVE, WM_RBUTTONDOWN, WM_RBUTTONUP, WM_SIZE,
};
use directx::window::vk;
use directx::window::{
    decode_message, KeyCode, KeyboardEvent, MessageAction, MouseEvent, WindowEvent,
};

fn make_lparam(low: u16, high: u16) -> isize {
    ((low as u32) | ((high as u32) << 16)) as isize
}

#[test]
fn activate_reports_focus() {
    assert_eq!(
        decode_message(WM_ACTIVATE, 1, 0, None),
        MessageAction::Send(WindowEvent::Focused(true))
    );
    assert_eq!(
        decode_message(WM_ACTIVATE, 2, 0, None),
        MessageAction::Send(WindowEvent::Focused(true))
    );
    assert_eq!(
        decode_message(WM_ACTIVATE, 0, 0, None),
        MessageAction::Send(WindowEvent::Focused(false))
    );
}

#[test]
fn activate_reads_only_the_low_word() {
    // A minimized window being deactivated: WA_INACTIVE with the minimized flag set.
    assert_eq!(
        decode_message(WM_ACTIVATE, 0x0001_0000, 0, None),
        MessageAction::Send(WindowEvent::Focused(false))
    );
    // A minimized window being activated.
    assert_eq!(
        decode_message(WM_ACTIVATE, 0x0001_0001, 0, None),
        MessageAction::Send(WindowEvent::Focused(true))
    );
    assert_eq!(
        decode_message(WM_ACTIVATE, 0x0001_0002, 0, None),
        MessageAction::Send(WindowEvent::Focused(true))
    );
    assert_eq!(
        decode_message(WM_ACTIVATE, 0xffff_0000, 0, None),
        MessageAction::Send(WindowEvent::Focused(false))
    );
}

#[test]
fn destroy_reports_closed() {
    assert_eq!(decode_message(WM_DESTROY, 0, 0, None), MessageAction::Send(WindowEvent::Closed));
}

#[test]
fn size_reports_both_words() {
    assert_eq!(
        decode_message(WM_SIZE, 0, make_lparam(1280, 720), None),
        MessageAction::Send(WindowEvent::Resized(1280, 720))
    );
    assert_eq!(
        decode_message(WM_SIZE, 0, make_lparam(0xffff, 0x8000), None),
        MessageAction::Send(WindowEvent::Resized(0xffff, 0x8000))
    );
    assert_eq!(size_from_lparam(0x0002_0001), (1, 2));
}

#[test]
fn move_reports_signed_coordinates() {
    assert_eq!(
        decode_message(WM_MOVE, 0, make_lparam((-5i16) as u16, 300), None),
        MessageAction::Send(WindowEvent::Moved(-5, 300))
    );
    assert_eq!(
        decode_message(WM_MOVE, 0, make_lparam(100, (-1i16) as u16), None),
        MessageAction::Send(WindowEvent::Moved(100, -1))
    );
}

#[test]
fn coordinates_ignore_high_bits() {
    let lparam = make_lparam(0x1234, 0x8001) | (0x7f_0000_0000isize);
    assert_eq!(point_from_lparam(lparam), (0x1234, -0x7fff));
    assert_eq!(point_from_lparam(-1), (-1, -1));
    assert_eq!(size_from_lparam(-1), (0xffff, 0xffff));
    assert_eq!(size_from_lparam(-0x1_0000), (0, 0xffff));
}

#[test]
fn mouse_messages_report_button_and_position() {
    let lparam = make_lparam(10, 20);
    let cases = [
        (WM_MOUSEMOVE, MouseEvent::Move),
        (WM_LBUTTONDOWN, MouseEvent::LeftButtonDown),
        (WM_LBUTTONUP, MouseEvent::LeftButtonUp),
        (WM_RBUTTONDOWN, MouseEvent::RightButtonDown),
        (WM_RBUTTONUP, MouseEvent::RightButtonUp),
        (WM_MBUTTONDOWN, MouseEvent::MiddleButtonDown),
        (WM_MBUTTONUP, MouseEvent::MiddleButtonUp),
    ];
    for (msg, event) in cases.iter() {
        assert_eq!(
            decode_message(*msg, 0, lparam, None),
            MessageAction::Send(WindowEvent::MouseInput(*event, 10, 20))
        );
    }
    assert_eq!(
        decode_message(WM_MOUSEMOVE, 0, make_lparam((-3i16) as u16, (-4i16) as u16), None),
        MessageAction::Send(WindowEvent::MouseInput(MouseEvent::Move, -3, -4))
    );
}

#[test]
fn key_down_is_pressed_then_repeated() {
    assert_eq!(
        decode_message(WM_KEYDOWN, vk::VK_A, 0x001e_0001, None),
        MessageAction::Send(WindowEvent::KeyboardInput(KeyCode::A, KeyboardEvent::Pressed))
    );
    assert_eq!(
        decode_message(WM_KEYDOWN, vk::VK_A, 0x401e_0001, None),
        MessageAction::Send(WindowEvent::KeyboardInput(KeyCode::A, KeyboardEvent::Repeated))
    );
}

#[test]
fn key_up_is_released() {
    assert_eq!(
        decode_message(WM_KEYUP, vk::VK_ESCAPE, 0xc001_0001u32 as isize, None),
        MessageAction::Send(WindowEvent::KeyboardInput(KeyCode::Escape, KeyboardEvent::Released))
    );
}

#[test]
fn control_and_alt_are_sided_by_extended_bit() {
    assert_eq!(
        decode_message(WM_KEYDOWN, vk::VK_CONTROL, 0x001d_0001, None),
        MessageAction::Send(WindowEvent::KeyboardInput(KeyCode::LeftControl, KeyboardEvent::Pressed))
    );
    assert_eq!(
        decode_message(WM_KEYDOWN, vk::VK_CONTROL, 0x011d_0001, None),
        MessageAction::Send(WindowEvent::KeyboardInput(KeyCode::RightControl, KeyboardEvent::Pressed))
    );
    assert_eq!(
        decode_message(WM_KEYUP, vk::VK_MENU, 0x0038_0001, None),
        MessageAction::Send(WindowEvent::KeyboardInput(KeyCode::LeftAlt, KeyboardEvent::Released))
    );
    assert_eq!(
        decode_message(WM_KEYUP, vk::VK_MENU, 0x0138_0001, None),
        MessageAction::Send(WindowEvent::KeyboardInput(KeyCode::RightAlt, KeyboardEvent::Released))
    );
}

#[test]
fn shift_needs_a_scan_code_lookup() {
    assert_eq!(
        decode_message(WM_KEYDOWN, vk::VK_SHIFT, 0x0036_0001, None),
        MessageAction::LookUpShift(0x36)
    );
    assert_eq!(
        decode_message(WM_KEYDOWN, vk::VK_SHIFT, 0x0036_0001, Some(vk::VK_RSHIFT as u32)),
        MessageAction::Send(WindowEvent::KeyboardInput(KeyCode::RightShift, KeyboardEvent::Pressed))
    );
    assert_eq!(
        decode_message(WM_KEYUP, vk::VK_SHIFT, 0xc02a_0001u32 as isize, Some(vk::VK_LSHIFT as u32)),
        MessageAction::Send(WindowEvent::KeyboardInput(KeyCode::LeftShift, KeyboardEvent::Released))
    );
    assert_eq!(
        decode_message(WM_KEYDOWN, vk::VK_SHIFT, 0x0036_0001, Some(0)),
        MessageAction::Send(WindowEvent::KeyboardInput(KeyCode::Unknown(0), KeyboardEvent::Pressed))
    );
}

#[test]
fn map_keycode_leaves_other_keys_alone() {
    assert_eq!(map_keycode(vk::VK_F5, 0x0100_0000, 7), vk::VK_F5);
    assert_eq!(map_keycode(vk::VK_SHIFT, 0, 0xA1), 0xA1);
    assert_eq!(map_keycode(vk::VK_CONTROL, 0x0100_0000, 0), vk::VK_RCONTROL);
    assert_eq!(map_keycode(vk::VK_MENU, 0, 0), vk::VK_LMENU);
}

#[test]
fn other_messages_go_to_the_default_handler() {
    assert_eq!(decode_message(0x000F, 0, 0, None), MessageAction::Default);
    assert_eq!(decode_message(0x0010, 0, 0, None), MessageAction::Default);
    assert_eq!(decode_message(0x0203, 0, 0, None), MessageAction::Default);
    assert_eq!(decode_message(0x0104, vk::VK_A, 0, None), MessageAction::Default);
}

#[test]
fn packed_coordinates_decode_back() {
    let samples: [i16; 7] = [0, 1, -1, 300, -300, i16::MAX, i16::MIN];
    for &x in samples.iter() {
        for &y in samples.iter() {
            let lparam = make_lparam(x as u16, y as u16);
            assert_eq!(point_from_lparam(lparam), (x, y));
            assert_eq!(size_from_lparam(lparam), (x as u16, y as u16));
            assert_eq!(
                decode_message(WM_MOUSEMOVE, 0, lparam, None),
                MessageAction::Send(WindowEvent::MouseInput(MouseEvent::Move, x, y))
            );
            let sign_extended = (((y as i32) << 16) | (x as u16 as i32)) as isize;
            assert_eq!(point_from_lparam(sign_extended), (x, y));
        }
    }
}

#[test]
fn a_known_shift_key_is_never_asked_for_again() {
    for scan in [0x2au32, 0x36, 0].iter() {
        let lparam = ((*scan as isize) << 16) | 1;
        for shift in [vk::VK_LSHIFT as u32, vk::VK_RSHIFT as u32, 0x10, 0].iter() {
            match decode_message(WM_KEYDOWN, vk::VK_SHIFT, lparam, Some(*shift)) {
                MessageAction::Send(WindowEvent::KeyboardInput(key, KeyboardEvent::Pressed)) => {
                    assert_eq!(key, KeyCode::from_virtual_key(*shift as usize));
                }
                other => panic!("unexpected {:?}", other),
            }
        }
    }
}
