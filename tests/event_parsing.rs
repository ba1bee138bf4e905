use mouse_codes::parser::parse_scroll_direction;
use mouse_codes::utils::all_standard_buttons;
use mouse_codes::{parse_mouse_input, Button, MouseEvent, MouseParseError, ScrollDirection};

fn unknown(s: &str) -> Result<MouseEvent, MouseParseError> {
    Err(MouseParseError::UnknownButton(s.to_string()))
}

#[test]
fn press_left() {
    assert_eq!(parse_mouse_input("Press(Left)"), Ok(MouseEvent::Press(Button::Left)));
}

#[test]
fn scroll_vertical_down() {
    assert_eq!(
        parse_mouse_input("Scroll(VerticalDown, 5)"),
        Ok(MouseEvent::Scroll(ScrollDirection::VerticalDown, 5))
    );
}

#[test]
fn move_absolute() {
    assert_eq!(parse_mouse_input("Move(100, 200)"), Ok(MouseEvent::Move(100, 200)));
}

#[test]
fn move_relative() {
    assert_eq!(parse_mouse_input("RelativeMove(-3, 7)"), Ok(MouseEvent::RelativeMove(-3, 7)));
}

#[test]
fn empty_event() {
    assert_eq!(parse_mouse_input(""), Err(MouseParseError::EmptyInput));
}

#[test]
fn invalid_button_is_case_folded() {
    assert_eq!(parse_mouse_input("Press(InvalidButton)"), unknown("invalidbutton"));
}

#[test]
fn release_with_alias() {
    assert_eq!(parse_mouse_input("Release(RMB)"), Ok(MouseEvent::Release(Button::Right)));
    assert_eq!(parse_mouse_input("Press(back)"), Ok(MouseEvent::Press(Button::X1)));
}

#[test]
fn structural_failures() {
    assert_eq!(parse_mouse_input("Press"), unknown("Press"));
    assert_eq!(parse_mouse_input("Press(Left"), unknown("Press(Left"));
    assert_eq!(parse_mouse_input("Click(Left)"), unknown("Click(Left)"));
    assert_eq!(parse_mouse_input("press(Left)"), unknown("press(Left)"));
    assert_eq!(parse_mouse_input("Move(1)"), unknown("Move(1)"));
    assert_eq!(parse_mouse_input("Move(1, 2, 3)"), unknown("Move(1, 2, 3)"));
    assert_eq!(parse_mouse_input("Move(a, 2)"), unknown("Move(a, 2)"));
    assert_eq!(parse_mouse_input("Scroll(up, x)"), unknown("Scroll(up, x)"));
    assert_eq!(parse_mouse_input("Press()"), Err(MouseParseError::EmptyInput));
}

#[test]
fn integer_range() {
    assert_eq!(
        parse_mouse_input("Move(2147483647, -2147483648)"),
        Ok(MouseEvent::Move(i32::MAX, i32::MIN))
    );
    assert_eq!(parse_mouse_input("Move(2147483648, 0)"), unknown("Move(2147483648, 0)"));
    assert_eq!(parse_mouse_input("Move(0, -2147483649)"), unknown("Move(0, -2147483649)"));
    assert_eq!(parse_mouse_input("Move(-, 0)"), unknown("Move(-, 0)"));
    assert_eq!(parse_mouse_input("Move(1 ,2)"), Ok(MouseEvent::Move(1, 2)));
    assert_eq!(parse_mouse_input("Move(\t1,\u{a0}2 )"), Ok(MouseEvent::Move(1, 2)));
}

#[test]
fn scroll_directions() {
    assert_eq!(parse_scroll_direction("UP"), Ok(ScrollDirection::VerticalUp));
    assert_eq!(parse_scroll_direction("down"), Ok(ScrollDirection::VerticalDown));
    assert_eq!(parse_scroll_direction("Left"), Ok(ScrollDirection::HorizontalLeft));
    assert_eq!(parse_scroll_direction("horizontalRIGHT"), Ok(ScrollDirection::HorizontalRight));
    assert_eq!(
        parse_scroll_direction("Vertical Up"),
        Err(MouseParseError::UnknownButton("vertical up".to_string()))
    );
    assert_eq!(
        parse_mouse_input("Scroll( Sideways ,1)"),
        Err(MouseParseError::UnknownButton("sideways".to_string()))
    );
}

#[test]
fn display_forms() {
    assert_eq!(MouseEvent::Press(Button::Left).to_text(), "Press(Left)");
    assert_eq!(MouseEvent::Release(Button::Extra5).to_text(), "Release(Extra5)");
    assert_eq!(
        MouseEvent::Scroll(ScrollDirection::HorizontalLeft, -12).to_text(),
        "Scroll(HorizontalLeft, -12)"
    );
    assert_eq!(MouseEvent::Move(0, 42).to_text(), "Move(0, 42)");
    assert_eq!(MouseEvent::RelativeMove(-3, 7).to_text(), "RelativeMove(-3, 7)");
    assert_eq!(ScrollDirection::VerticalUp.as_str(), "VerticalUp");
}

#[test]
fn display_round_trip() {
    let mut events = Vec::new();
    for b in all_standard_buttons() {
        events.push(MouseEvent::Press(b));
        events.push(MouseEvent::Release(b));
    }
    for d in [
        ScrollDirection::VerticalUp,
        ScrollDirection::VerticalDown,
        ScrollDirection::HorizontalLeft,
        ScrollDirection::HorizontalRight,
    ] {
        events.push(MouseEvent::Scroll(d, i32::MIN));
        events.push(MouseEvent::Scroll(d, 0));
    }
    events.push(MouseEvent::Move(i32::MAX, -1));
    events.push(MouseEvent::RelativeMove(-40, 1000));
    for e in events {
        assert_eq!(parse_mouse_input(&e.to_text()), Ok(e));
    }
}
