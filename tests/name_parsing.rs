use mouse_codes::mapping::standard::parse_button_from_str;
use mouse_codes::utils::all_standard_buttons;
use mouse_codes::{
    parse_button_ignore_case, parse_button_with_aliases, Button, MouseParseError,
};

#[test]
fn exact_names_round_trip() {
    for b in all_standard_buttons() {
        assert_eq!(parse_button_from_str(b.as_str()), Ok(b));
        assert_eq!(b.as_str().parse::<Button>(), Ok(b));
        let upper = b.as_str().to_ascii_uppercase();
        assert_eq!(parse_button_ignore_case(&upper), Ok(b));
    }
}

#[test]
fn exact_mode_is_case_sensitive() {
    assert_eq!(
        parse_button_from_str("left"),
        Err(MouseParseError::UnknownButton("left".to_string()))
    );
    assert_eq!(parse_button_from_str(""), Err(MouseParseError::UnknownButton(String::new())));
    assert_eq!(parse_button_from_str("Extra7"), Ok(Button::Extra7));
}

#[test]
fn ignore_case_mode() {
    assert_eq!(parse_button_ignore_case("mIdDlE"), Ok(Button::Middle));
    assert_eq!(parse_button_ignore_case("x2"), Ok(Button::X2));
    assert_eq!(
        parse_button_ignore_case("Wheel"),
        Err(MouseParseError::UnknownButton("Wheel".to_string()))
    );
    assert_eq!(parse_button_ignore_case(""), Err(MouseParseError::UnknownButton(String::new())));
}

#[test]
fn aliases_parse_in_any_case() {
    let aliases = [
        ("lmb", Button::Left),
        ("RMB", Button::Right),
        ("Mmb", Button::Middle),
        ("WHEEL", Button::Middle),
        ("back", Button::X1),
        ("Forward", Button::X2),
    ];
    for (a, b) in aliases {
        assert_eq!(parse_button_with_aliases(a), Ok(b));
    }
    for b in all_standard_buttons() {
        for (a, _) in aliases {
            assert!(!b.as_str().eq_ignore_ascii_case(a));
        }
    }
}

#[test]
fn alias_mode_errors() {
    assert_eq!(parse_button_with_aliases(""), Err(MouseParseError::EmptyInput));
    assert_eq!(
        parse_button_with_aliases("Extra9"),
        Err(MouseParseError::UnknownButton("extra9".to_string()))
    );
    assert_eq!(parse_button_with_aliases("EXTRA3"), Ok(Button::Extra3));
}
