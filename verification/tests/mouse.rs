use kare::keycode::KeyCode;
use kare::mouse::{InvalidValueError, MouseButton};

#[test]
fn mouse_code_three_is_invalid() {
    let result = MouseButton::try_from(3u8);
    assert_eq!(result, Err(InvalidValueError { value: 3 }));
}

#[test]
fn large_mouse_codes_are_invalid() {
    assert_eq!(MouseButton::try_from(4u8), Err(InvalidValueError { value: 4 }));
    assert_eq!(MouseButton::try_from(255u8), Err(InvalidValueError { value: 255 }));
}

#[test]
fn mouse_codes_round_trip() {
    for code in 0u8..3u8 {
        let button = MouseButton::try_from(code).unwrap();
        assert_eq!(u8::from(button), code);
    }
    assert_eq!(MouseButton::try_from(0u8), Ok(MouseButton::Left));
    assert_eq!(MouseButton::try_from(1u8), Ok(MouseButton::Right));
    assert_eq!(MouseButton::try_from(2u8), Ok(MouseButton::Middle));
}

#[test]
fn mouse_button_codes_are_dense() {
    assert_eq!(u8::from(MouseButton::Left), 0);
    assert_eq!(u8::from(MouseButton::Right), 1);
    assert_eq!(u8::from(MouseButton::Middle), 2);
}

#[test]
fn from_code_agrees_with_try_from() {
    for code in 0u8..6u8 {
        let via_trait = MouseButton::from_code(code);
        let via_try_from = MouseButton::try_from(code).ok();
        assert_eq!(via_trait, via_try_from);
    }
}
