use mouse_codes::mapping::{get_button, get_code, reverse_standard_mapping, standard_mapping};
use mouse_codes::utils::{
    all_standard_buttons, code_to_name, platform_button_mapping, platform_code_mapping,
};
use mouse_codes::{Button, CodeMapper, Platform};

const PLATFORMS: [Platform; 3] = [Platform::Windows, Platform::Linux, Platform::MacOS];

#[test]
fn right_button_codes() {
    assert_eq!(Button::Right.to_code(Platform::Linux), 3);
    assert_eq!(Button::from_code(3, Platform::Linux), Some(Button::Right));
    assert_eq!(Button::from_code(3, Platform::Windows), None);
}

#[test]
fn table_rows_exact() {
    let rows = [
        (Button::Left, 1, 1, 0),
        (Button::Right, 2, 3, 1),
        (Button::Middle, 4, 2, 2),
        (Button::X1, 5, 8, 3),
        (Button::X2, 6, 9, 4),
        (Button::Extra3, 7, 10, 5),
        (Button::Extra4, 8, 11, 6),
        (Button::Extra5, 9, 12, 7),
        (Button::Extra6, 10, 13, 8),
        (Button::Extra7, 11, 14, 9),
        (Button::Extra8, 12, 15, 10),
    ];
    for (b, w, l, m) in rows {
        assert_eq!(b.to_code(Platform::Windows), w);
        assert_eq!(b.to_code(Platform::Linux), l);
        assert_eq!(b.to_code(Platform::MacOS), m);
    }
}

#[test]
fn forward_reverse_round_trip() {
    for b in all_standard_buttons() {
        for p in PLATFORMS {
            assert_eq!(Button::from_code(b.to_code(p), p), Some(b));
        }
    }
}

#[test]
fn codes_distinct_per_platform() {
    for p in PLATFORMS {
        let codes: Vec<usize> = all_standard_buttons().iter().map(|b| b.to_code(p)).collect();
        for i in 0..codes.len() {
            for j in (i + 1)..codes.len() {
                assert_ne!(codes[i], codes[j]);
            }
        }
    }
}

#[test]
fn unknown_codes_have_no_button() {
    assert_eq!(Button::from_code(0, Platform::Windows), None);
    assert_eq!(Button::from_code(3, Platform::Windows), None);
    assert_eq!(Button::from_code(0, Platform::Linux), None);
    assert_eq!(Button::from_code(16, Platform::Linux), None);
    assert_eq!(Button::from_code(11, Platform::MacOS), None);
    assert_eq!(Button::from_code(usize::MAX, Platform::MacOS), None);
}

#[test]
fn all_buttons_in_declaration_order() {
    let all = all_standard_buttons();
    assert_eq!(all.len(), 11);
    assert_eq!(all[0], Button::Left);
    assert_eq!(all[2], Button::Middle);
    assert_eq!(all[10], Button::Extra8);
    assert!(Button::Left < Button::Right && Button::X2 < Button::Extra3);
}

#[test]
fn whole_table_views() {
    let fwd = platform_button_mapping(Platform::Linux);
    assert_eq!(fwd.len(), 11);
    assert_eq!(fwd[1], (Button::Right, 3));
    assert_eq!(fwd[2], (Button::Middle, 2));
    let rev = platform_code_mapping(Platform::MacOS);
    assert_eq!(rev.len(), 11);
    assert_eq!(rev.get(&0), Some(&Button::Left));
    assert_eq!(rev.get(&11), None);
    assert_eq!(standard_mapping(Platform::Windows)[2], (Button::Middle, 4));
    assert_eq!(reverse_standard_mapping(Platform::Windows).get(&4), Some(&Button::Middle));
}

#[test]
fn forwarding_helpers() {
    assert_eq!(get_code(&Button::X1, Platform::Linux), 8);
    assert_eq!(get_button(8, Platform::Linux), Some(Button::X1));
    assert_eq!(get_button(8, Platform::MacOS), Some(Button::Extra6));
    assert_eq!(code_to_name(4, Platform::Windows), Some("Middle".to_string()));
    assert_eq!(code_to_name(3, Platform::Windows), None);
    assert_eq!(Platform::Linux.button_code(Button::Middle), 2);
    assert_eq!(Platform::MacOS.button_from_code(4), Some(Button::X2));
    assert!(Platform::Windows.code_matches_button(2, Button::Right));
    assert!(!Platform::Linux.code_matches_button(2, Button::Right));
}

#[test]
fn platform_names() {
    assert_eq!("WINDOWS".parse::<Platform>(), Ok(Platform::Windows));
    assert_eq!("Linux".parse::<Platform>(), Ok(Platform::Linux));
    assert_eq!("macOS".parse::<Platform>(), Ok(Platform::MacOS));
    assert_eq!("OsX".parse::<Platform>(), Ok(Platform::MacOS));
    assert_eq!(
        "freebsd".parse::<Platform>(),
        Err(mouse_codes::MouseParseError::UnknownPlatform)
    );
    assert_eq!("".parse::<Platform>(), Err(mouse_codes::MouseParseError::UnknownPlatform));
    assert_eq!(Platform::MacOS.as_str(), "macOS");
    assert_eq!(Platform::Windows.as_str(), "Windows");
    assert_eq!(Platform::for_target_os("linux"), Some(Platform::Linux));
    assert_eq!(Platform::for_target_os("macos"), Some(Platform::MacOS));
    assert_eq!(Platform::for_target_os("freebsd"), None);
}
