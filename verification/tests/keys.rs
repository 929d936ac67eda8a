use dioteko::keyboard::Key;
use dioteko::mouse::MouseButton;
use dioteko::mouse::MouseCursor;

#[test]
fn keys_have_the_numbers_of_the_engine() {
    assert_eq!(Key::Null.code(), 0);
    assert_eq!(Key::Apostrophe.code(), 39);
    assert_eq!(Key::Comma.code(), 44);
    assert_eq!(Key::Slash.code(), 47);
    assert_eq!(Key::Zero.code(), 48);
    assert_eq!(Key::Nine.code(), 57);
    assert_eq!(Key::Semicolon.code(), 59);
    assert_eq!(Key::Equal.code(), 61);
    assert_eq!(Key::A.code(), 65);
    assert_eq!(Key::Q.code(), 81);
    assert_eq!(Key::Z.code(), 90);
    assert_eq!(Key::LeftBracket.code(), 91);
    assert_eq!(Key::Backslash.code(), 92);
    assert_eq!(Key::RightBracket.code(), 93);
    assert_eq!(Key::Grave.code(), 96);
    assert_eq!(Key::Space.code(), 32);
    assert_eq!(Key::Escape.code(), 256);
    assert_eq!(Key::Enter.code(), 257);
    assert_eq!(Key::Tab.code(), 258);
    assert_eq!(Key::Backspace.code(), 259);
    assert_eq!(Key::Right.code(), 262);
    assert_eq!(Key::Left.code(), 263);
    assert_eq!(Key::Down.code(), 264);
    assert_eq!(Key::Up.code(), 265);
    assert_eq!(Key::End.code(), 269);
    assert_eq!(Key::CapsLock.code(), 280);
    assert_eq!(Key::Pause.code(), 284);
    assert_eq!(Key::F1.code(), 290);
    assert_eq!(Key::F12.code(), 301);
    assert_eq!(Key::Kp0.code(), 320);
    assert_eq!(Key::Kp9.code(), 329);
    assert_eq!(Key::KpEqual.code(), 336);
    assert_eq!(Key::LeftShift.code(), 340);
    assert_eq!(Key::Rightsuper.code(), 347);
    assert_eq!(Key::KbMenu.code(), 348);
    assert_eq!(Key::Back.code(), 4);
    assert_eq!(Key::VolumeUp.code(), 24);
    assert_eq!(Key::VolumeDown.code(), 25);
}

#[test]
fn a_key_is_found_again_by_its_number() {
    let mut known = 0;
    for code in -10..400 {
        match Key::from_code(code) {
            Some(key) => {
                assert_eq!(key.code(), code);
                assert_eq!(Key::from_code(key.code()), Some(key));
                known += 1;
            }
            None => {}
        }
    }
    assert_eq!(known, 109);
}

#[test]
fn numbers_that_name_no_key_find_none() {
    assert_eq!(Key::from_code(-1), None);
    assert_eq!(Key::from_code(1), None);
    assert_eq!(Key::from_code(58), None);
    assert_eq!(Key::from_code(60), None);
    assert_eq!(Key::from_code(97), None);
    assert_eq!(Key::from_code(349), None);
    assert_eq!(Key::from_code(i32::MAX), None);
    assert_eq!(Key::from_code(i32::MIN), None);
}

#[test]
fn mouse_buttons_have_the_numbers_of_the_engine() {
    let buttons = [
        MouseButton::Left,
        MouseButton::Right,
        MouseButton::Middle,
        MouseButton::Side,
        MouseButton::Extra,
        MouseButton::Forward,
        MouseButton::Back,
    ];
    for (number, button) in buttons.iter().enumerate() {
        assert_eq!(button.code(), number as i32);
        assert_eq!(MouseButton::from_code(number as i32), Some(*button));
    }
    assert_eq!(MouseButton::from_code(7), None);
    assert_eq!(MouseButton::from_code(-1), None);
}

#[test]
fn mouse_cursors_have_the_numbers_of_the_engine() {
    let cursors = [
        MouseCursor::Default,
        MouseCursor::Arrow,
        MouseCursor::Ibeam,
        MouseCursor::CrossHair,
        MouseCursor::PointingHand,
        MouseCursor::ResizeEW,
        MouseCursor::ResizeNS,
        MouseCursor::ResizeNWSE,
        MouseCursor::ResizeNESW,
        MouseCursor::ResizeAll,
        MouseCursor::NotAllowed,
    ];
    for (number, cursor) in cursors.iter().enumerate() {
        assert_eq!(cursor.code(), number as i32);
        assert_eq!(MouseCursor::from_code(number as i32), Some(*cursor));
    }
    assert_eq!(MouseCursor::from_code(11), None);
    assert_eq!(MouseCursor::from_code(-1), None);
}
