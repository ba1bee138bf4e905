use mouse_codes::utils::all_standard_buttons;
use mouse_codes::{Button, CodeMapper, CustomButton, CustomButtonMap, MouseParseError, Platform};

fn gesture() -> CustomButton {
    CustomButton::Custom("Gesture".to_string())
}

#[test]
fn gesture_registry_lookups() {
    let mut m = CustomButtonMap::new("pad");
    assert_eq!(m.add_button(gesture(), Some(16), Some(18), Some(13)), Ok(()));
    assert_eq!(m.from_code(16, Platform::Windows), Some(gesture()));
    assert_eq!(m.from_code(16, Platform::Linux), None);
    assert_eq!(m.from_code(18, Platform::Linux), Some(gesture()));
    assert_eq!(m.from_code(13, Platform::MacOS), Some(gesture()));
    assert_eq!(m.get_code_for_button(&gesture(), Platform::Linux), Some(18));
    assert_eq!(m.name(), "pad");
}

#[test]
fn duplicate_code_is_rejected() {
    let mut m = CustomButtonMap::new("pad");
    let first = CustomButton::Custom("First".to_string());
    let second = CustomButton::Custom("Second".to_string());
    assert_eq!(m.add_button(first.clone(), Some(20), None, None), Ok(()));
    assert_eq!(
        m.add_button(second.clone(), Some(20), Some(30), None),
        Err(MouseParseError::DuplicateCustomButton("Second".to_string()))
    );
    assert_eq!(m.get_code_for_button(&second, Platform::Windows), None);
    assert_eq!(m.from_code(30, Platform::Linux), None);
    assert_eq!(m.from_code(20, Platform::Windows), Some(first));
    assert_eq!(m.add_button(second.clone(), Some(21), Some(30), None), Ok(()));
    assert_eq!(m.from_code(30, Platform::Linux), Some(second));
}

#[test]
fn duplicate_identity_is_rejected() {
    let mut m = CustomButtonMap::new("pad");
    assert_eq!(m.add_button(gesture(), None, Some(40), None), Ok(()));
    assert_eq!(
        m.add_button(gesture(), Some(41), None, None),
        Err(MouseParseError::DuplicateCustomButton("Gesture".to_string()))
    );
    assert_eq!(m.from_code(41, Platform::Windows), None);
    assert_eq!(m.get_code_for_button(&gesture(), Platform::Windows), None);
    let std_entry = CustomButton::Standard(Button::Left);
    assert_eq!(m.add_button(std_entry.clone(), Some(50), None, None), Ok(()));
    assert_eq!(
        m.add_button(std_entry, None, None, Some(51)),
        Err(MouseParseError::DuplicateCustomButton("Left".to_string()))
    );
}

#[test]
fn fallback_to_standard_buttons() {
    let mut m = CustomButtonMap::new("pad");
    assert_eq!(m.add_button(gesture(), Some(2), None, None), Ok(()));
    for b in all_standard_buttons() {
        for p in [Platform::Windows, Platform::Linux, Platform::MacOS] {
            let code = b.to_code(p);
            if p == Platform::Windows && code == 2 {
                assert_eq!(m.from_code(code, p), Some(gesture()));
            } else {
                assert_eq!(m.from_code(code, p), Some(CustomButton::Standard(b)));
            }
        }
    }
}

#[test]
fn standard_entries_use_the_table() {
    let m = CustomButtonMap::new("empty");
    let right = CustomButton::Standard(Button::Right);
    assert_eq!(m.get_code_for_button(&right, Platform::Linux), Some(3));
    assert_eq!(m.get_code_for_button(&gesture(), Platform::Linux), None);
    assert_eq!(right.to_code(Platform::MacOS), Some(1));
    assert_eq!(gesture().to_code(Platform::MacOS), None);
    assert_eq!(CustomButton::from_code(9, Platform::Linux), Some(CustomButton::Standard(Button::X2)));
    assert_eq!(gesture().to_text(), "Gesture");
    assert_eq!(right.to_text(), "Right");
}

#[test]
fn registries_are_independent() {
    let mut a = CustomButtonMap::new("a");
    let b = CustomButtonMap::new("b");
    assert_eq!(a.add_button(gesture(), Some(99), None, None), Ok(()));
    assert_eq!(a.from_code(99, Platform::Windows), Some(gesture()));
    assert_eq!(b.from_code(99, Platform::Windows), None);
    assert_eq!(b.name(), "b");
}
