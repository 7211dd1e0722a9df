use directx::window::KeyCode;

#[test]
fn from_virtual_key_names_every_listed_key() {
    assert_eq!(KeyCode::from_virtual_key(0xA0), KeyCode::LeftShift);
    assert_eq!(KeyCode::from_virtual_key(0xA1), KeyCode::RightShift);
    assert_eq!(KeyCode::from_virtual_key(0xA2), KeyCode::LeftControl);
    assert_eq!(KeyCode::from_virtual_key(0xA3), KeyCode::RightControl);
    assert_eq!(KeyCode::from_virtual_key(0xA4), KeyCode::LeftAlt);
    assert_eq!(KeyCode::from_virtual_key(0xA5), KeyCode::RightAlt);
    assert_eq!(KeyCode::from_virtual_key(0xBB), KeyCode::Plus);
    assert_eq!(KeyCode::from_virtual_key(0xBC), KeyCode::Comma);
    assert_eq!(KeyCode::from_virtual_key(0xBD), KeyCode::Minus);
    assert_eq!(KeyCode::from_virtual_key(0xBE), KeyCode::Period);
    assert_eq!(KeyCode::from_virtual_key(0xBA), KeyCode::SemiColon);
    assert_eq!(KeyCode::from_virtual_key(0xBF), KeyCode::Slash);
    assert_eq!(KeyCode::from_virtual_key(0xC0), KeyCode::Tilde);
    assert_eq!(KeyCode::from_virtual_key(0xDB), KeyCode::LeftBracket);
    assert_eq!(KeyCode::from_virtual_key(0xDC), KeyCode::BackSlash);
    assert_eq!(KeyCode::from_virtual_key(0xDD), KeyCode::RightBracket);
    assert_eq!(KeyCode::from_virtual_key(0xDE), KeyCode::Quote);
    assert_eq!(KeyCode::from_virtual_key(0x08), KeyCode::Backspace);
    assert_eq!(KeyCode::from_virtual_key(0x09), KeyCode::Tab);
    assert_eq!(KeyCode::from_virtual_key(0x0D), KeyCode::Return);
    assert_eq!(KeyCode::from_virtual_key(0x13), KeyCode::Pause);
    assert_eq!(KeyCode::from_virtual_key(0x1B), KeyCode::Escape);
    assert_eq!(KeyCode::from_virtual_key(0x20), KeyCode::Space);
    assert_eq!(KeyCode::from_virtual_key(0x21), KeyCode::PageUp);
    assert_eq!(KeyCode::from_virtual_key(0x22), KeyCode::PageDown);
    assert_eq!(KeyCode::from_virtual_key(0x23), KeyCode::End);
    assert_eq!(KeyCode::from_virtual_key(0x24), KeyCode::Home);
    assert_eq!(KeyCode::from_virtual_key(0x25), KeyCode::Left);
    assert_eq!(KeyCode::from_virtual_key(0x26), KeyCode::Up);
    assert_eq!(KeyCode::from_virtual_key(0x27), KeyCode::Right);
    assert_eq!(KeyCode::from_virtual_key(0x28), KeyCode::Down);
    assert_eq!(KeyCode::from_virtual_key(0x2C), KeyCode::PrintScreen);
    assert_eq!(KeyCode::from_virtual_key(0x2D), KeyCode::Insert);
    assert_eq!(KeyCode::from_virtual_key(0x2E), KeyCode::Delete);
    assert_eq!(KeyCode::from_virtual_key(0x14), KeyCode::CapsLock);
    assert_eq!(KeyCode::from_virtual_key(0x90), KeyCode::NumLock);
    assert_eq!(KeyCode::from_virtual_key(0x91), KeyCode::ScrollLock);
    assert_eq!(KeyCode::from_virtual_key(0x30), KeyCode::Key0);
    assert_eq!(KeyCode::from_virtual_key(0x31), KeyCode::Key1);
    assert_eq!(KeyCode::from_virtual_key(0x32), KeyCode::Key2);
    assert_eq!(KeyCode::from_virtual_key(0x33), KeyCode::Key3);
    assert_eq!(KeyCode::from_virtual_key(0x34), KeyCode::Key4);
    assert_eq!(KeyCode::from_virtual_key(0x35), KeyCode::Key5);
    assert_eq!(KeyCode::from_virtual_key(0x36), KeyCode::Key6);
    assert_eq!(KeyCode::from_virtual_key(0x37), KeyCode::Key7);
    assert_eq!(KeyCode::from_virtual_key(0x38), KeyCode::Key8);
    assert_eq!(KeyCode::from_virtual_key(0x39), KeyCode::Key9);
    assert_eq!(KeyCode::from_virtual_key(0x41), KeyCode::A);
    assert_eq!(KeyCode::from_virtual_key(0x42), KeyCode::B);
    assert_eq!(KeyCode::from_virtual_key(0x43), KeyCode::C);
    assert_eq!(KeyCode::from_virtual_key(0x44), KeyCode::D);
    assert_eq!(KeyCode::from_virtual_key(0x45), KeyCode::E);
    assert_eq!(KeyCode::from_virtual_key(0x46), KeyCode::F);
    assert_eq!(KeyCode::from_virtual_key(0x47), KeyCode::G);
    assert_eq!(KeyCode::from_virtual_key(0x48), KeyCode::H);
    assert_eq!(KeyCode::from_virtual_key(0x49), KeyCode::I);
    assert_eq!(KeyCode::from_virtual_key(0x4A), KeyCode::J);
    assert_eq!(KeyCode::from_virtual_key(0x4B), KeyCode::K);
    assert_eq!(KeyCode::from_virtual_key(0x4C), KeyCode::L);
    assert_eq!(KeyCode::from_virtual_key(0x4D), KeyCode::M);
    assert_eq!(KeyCode::from_virtual_key(0x4E), KeyCode::N);
    assert_eq!(KeyCode::from_virtual_key(0x4F), KeyCode::O);
    assert_eq!(KeyCode::from_virtual_key(0x50), KeyCode::P);
    assert_eq!(KeyCode::from_virtual_key(0x51), KeyCode::Q);
    assert_eq!(KeyCode::from_virtual_key(0x52), KeyCode::R);
    assert_eq!(KeyCode::from_virtual_key(0x53), KeyCode::S);
    assert_eq!(KeyCode::from_virtual_key(0x54), KeyCode::T);
    assert_eq!(KeyCode::from_virtual_key(0x55), KeyCode::U);
    assert_eq!(KeyCode::from_virtual_key(0x56), KeyCode::V);
    assert_eq!(KeyCode::from_virtual_key(0x57), KeyCode::W);
    assert_eq!(KeyCode::from_virtual_key(0x58), KeyCode::X);
    assert_eq!(KeyCode::from_virtual_key(0x59), KeyCode::Y);
    assert_eq!(KeyCode::from_virtual_key(0x5A), KeyCode::Z);
    assert_eq!(KeyCode::from_virtual_key(0x60), KeyCode::Numpad0);
    assert_eq!(KeyCode::from_virtual_key(0x61), KeyCode::Numpad1);
    assert_eq!(KeyCode::from_virtual_key(0x62), KeyCode::Numpad2);
    assert_eq!(KeyCode::from_virtual_key(0x63), KeyCode::Numpad3);
    assert_eq!(KeyCode::from_virtual_key(0x64), KeyCode::Numpad4);
    assert_eq!(KeyCode::from_virtual_key(0x65), KeyCode::Numpad5);
    assert_eq!(KeyCode::from_virtual_key(0x66), KeyCode::Numpad6);
    assert_eq!(KeyCode::from_virtual_key(0x67), KeyCode::Numpad7);
    assert_eq!(KeyCode::from_virtual_key(0x68), KeyCode::Numpad8);
    assert_eq!(KeyCode::from_virtual_key(0x69), KeyCode::Numpad9);
    assert_eq!(KeyCode::from_virtual_key(0x6A), KeyCode::NumpadMultiply);
    assert_eq!(KeyCode::from_virtual_key(0x6B), KeyCode::NumpadPlus);
    assert_eq!(KeyCode::from_virtual_key(0x6D), KeyCode::NumpadMinus);
    assert_eq!(KeyCode::from_virtual_key(0x6E), KeyCode::NumpadPeriod);
    assert_eq!(KeyCode::from_virtual_key(0x6F), KeyCode::NumpadDivide);
    assert_eq!(KeyCode::from_virtual_key(0x70), KeyCode::F1);
    assert_eq!(KeyCode::from_virtual_key(0x71), KeyCode::F2);
    assert_eq!(KeyCode::from_virtual_key(0x72), KeyCode::F3);
    assert_eq!(KeyCode::from_virtual_key(0x73), KeyCode::F4);
    assert_eq!(KeyCode::from_virtual_key(0x74), KeyCode::F5);
    assert_eq!(KeyCode::from_virtual_key(0x75), KeyCode::F6);
    assert_eq!(KeyCode::from_virtual_key(0x76), KeyCode::F7);
    assert_eq!(KeyCode::from_virtual_key(0x77), KeyCode::F8);
    assert_eq!(KeyCode::from_virtual_key(0x78), KeyCode::F9);
    assert_eq!(KeyCode::from_virtual_key(0x79), KeyCode::F10);
    assert_eq!(KeyCode::from_virtual_key(0x7A), KeyCode::F11);
    assert_eq!(KeyCode::from_virtual_key(0x7B), KeyCode::F12);
    assert_eq!(KeyCode::from_virtual_key(0x7C), KeyCode::F13);
    assert_eq!(KeyCode::from_virtual_key(0x7D), KeyCode::F14);
    assert_eq!(KeyCode::from_virtual_key(0x7E), KeyCode::F15);
    assert_eq!(KeyCode::from_virtual_key(0x7F), KeyCode::F16);
    assert_eq!(KeyCode::from_virtual_key(0x80), KeyCode::F17);
    assert_eq!(KeyCode::from_virtual_key(0x81), KeyCode::F18);
    assert_eq!(KeyCode::from_virtual_key(0x82), KeyCode::F19);
    assert_eq!(KeyCode::from_virtual_key(0x83), KeyCode::F20);
    assert_eq!(KeyCode::from_virtual_key(0x84), KeyCode::F21);
    assert_eq!(KeyCode::from_virtual_key(0x85), KeyCode::F22);
    assert_eq!(KeyCode::from_virtual_key(0x86), KeyCode::F23);
    assert_eq!(KeyCode::from_virtual_key(0x87), KeyCode::F24);
}


#[test]
fn unlisted_codes_stay_unknown() {
    assert_eq!(KeyCode::from_virtual_key(0x10), KeyCode::Unknown(0x10));
    assert_eq!(KeyCode::from_virtual_key(0x11), KeyCode::Unknown(0x11));
    assert_eq!(KeyCode::from_virtual_key(0x12), KeyCode::Unknown(0x12));
    assert_eq!(KeyCode::from_virtual_key(0), KeyCode::Unknown(0));
    assert_eq!(KeyCode::from_virtual_key(0x5B), KeyCode::Unknown(0x5B));
    assert_eq!(KeyCode::from_virtual_key(0x6C), KeyCode::Unknown(0x6C));
    assert_eq!(KeyCode::from_virtual_key(0x88), KeyCode::Unknown(0x88));
    assert_eq!(KeyCode::from_virtual_key(usize::MAX), KeyCode::Unknown(usize::MAX));
}

#[test]
fn named_codes_are_distinct_and_round_trip() {
    let mut seen: Vec<KeyCode> = Vec::new();
    for code in 0usize..0x100 {
        let key = KeyCode::from_virtual_key(code);
        match key {
            KeyCode::Unknown(inner) => assert_eq!(inner, code),
            named => {
                assert!(!seen.contains(&named));
                seen.push(named);
            }
        }
    }
    assert_eq!(seen.len(), 112);
}
