//! The standard table of button codes per platform, and parsing of button
//! names in exact and case-insensitive modes.
use vstd::prelude::*;

use crate::error::{outcome, MouseParseError, ParseFailure};
use crate::text::{
    ascii_lower, ascii_upper, chars_eq_str, lower_char, lower_chars, to_chars, upper_char,
};
use crate::types::{Button, CodeMapper, Platform};

verus! {

/// The code of a standard button on a platform.
pub open spec fn standard_code(b: Button, p: Platform) -> usize {
    let (windows, linux, macos) = match b {
        Button::Left => (1usize, 1usize, 0usize),
        Button::Right => (2, 3, 1),
        Button::Middle => (4, 2, 2),
        Button::X1 => (5, 8, 3),
        Button::X2 => (6, 9, 4),
        Button::Extra3 => (7, 10, 5),
        Button::Extra4 => (8, 11, 6),
        Button::Extra5 => (9, 12, 7),
        Button::Extra6 => (10, 13, 8),
        Button::Extra7 => (11, 14, 9),
        Button::Extra8 => (12, 15, 10),
    };
    match p {
        Platform::Windows => windows,
        Platform::Linux => linux,
        Platform::MacOS => macos,
    }
}

/// The standard button that a code stands for on a platform, if any.
pub open spec fn standard_button(code: usize, p: Platform) -> Option<Button> {
    match p {
        Platform::Windows => match code {
            1 => Some(Button::Left),
            2 => Some(Button::Right),
            4 => Some(Button::Middle),
            5 => Some(Button::X1),
            6 => Some(Button::X2),
            7 => Some(Button::Extra3),
            8 => Some(Button::Extra4),
            9 => Some(Button::Extra5),
            10 => Some(Button::Extra6),
            11 => Some(Button::Extra7),
            12 => Some(Button::Extra8),
            _ => None,
        },
        Platform::Linux => match code {
            1 => Some(Button::Left),
            3 => Some(Button::Right),
            2 => Some(Button::Middle),
            8 => Some(Button::X1),
            9 => Some(Button::X2),
            10 => Some(Button::Extra3),
            11 => Some(Button::Extra4),
            12 => Some(Button::Extra5),
            13 => Some(Button::Extra6),
            14 => Some(Button::Extra7),
            15 => Some(Button::Extra8),
            _ => None,
        },
        Platform::MacOS => match code {
            0 => Some(Button::Left),
            1 => Some(Button::Right),
            2 => Some(Button::Middle),
            3 => Some(Button::X1),
            4 => Some(Button::X2),
            5 => Some(Button::Extra3),
            6 => Some(Button::Extra4),
            7 => Some(Button::Extra5),
            8 => Some(Button::Extra6),
            9 => Some(Button::Extra7),
            10 => Some(Button::Extra8),
            _ => None,
        },
    }
}

impl CodeMapper for Button {
    open spec fn code_spec(&self, platform: Platform) -> usize {
        standard_code(*self, platform)
    }

    open spec fn decode_spec(code: usize, platform: Platform) -> Option<Button> {
        standard_button(code, platform)
    }

    fn to_code(&self, platform: Platform) -> (r: usize) {
        let (windows, linux, macos): (usize, usize, usize) = match self {
            Button::Left => (1, 1, 0),
            Button::Right => (2, 3, 1),
            Button::Middle => (4, 2, 2),
            Button::X1 => (5, 8, 3),
            Button::X2 => (6, 9, 4),
            Button::Extra3 => (7, 10, 5),
            Button::Extra4 => (8, 11, 6),
            Button::Extra5 => (9, 12, 7),
            Button::Extra6 => (10, 13, 8),
            Button::Extra7 => (11, 14, 9),
            Button::Extra8 => (12, 15, 10),
        };
        match platform {
            Platform::Windows => windows,
            Platform::Linux => linux,
            Platform::MacOS => macos,
        }
    }

    fn from_code(code: usize, platform: Platform) -> (r: Option<Button>) {
        match platform {
            Platform::Windows => match code {
                1 => Some(Button::Left),
                2 => Some(Button::Right),
                4 => Some(Button::Middle),
                5 => Some(Button::X1),
                6 => Some(Button::X2),
                7 => Some(Button::Extra3),
                8 => Some(Button::Extra4),
                9 => Some(Button::Extra5),
                10 => Some(Button::Extra6),
                11 => Some(Button::Extra7),
                12 => Some(Button::Extra8),
                _ => None,
            },
            Platform::Linux => match code {
                1 => Some(Button::Left),
                3 => Some(Button::Right),
                2 => Some(Button::Middle),
                8 => Some(Button::X1),
                9 => Some(Button::X2),
                10 => Some(Button::Extra3),
                11 => Some(Button::Extra4),
                12 => Some(Button::Extra5),
                13 => Some(Button::Extra6),
                14 => Some(Button::Extra7),
                15 => Some(Button::Extra8),
                _ => None,
            },
            Platform::MacOS => match code {
                0 => Some(Button::Left),
                1 => Some(Button::Right),
                2 => Some(Button::Middle),
                3 => Some(Button::X1),
                4 => Some(Button::X2),
                5 => Some(Button::Extra3),
                6 => Some(Button::Extra4),
                7 => Some(Button::Extra5),
                8 => Some(Button::Extra6),
                9 => Some(Button::Extra7),
                10 => Some(Button::Extra8),
                _ => None,
            },
        }
    }
}

/// Looking up the code of any button on any platform gives that button back.
pub proof fn lemma_code_round_trip(b: Button, p: Platform)
    ensures
        standard_button(standard_code(b, p), p) == Some(b),
{
}

/// Within one platform, distinct buttons have distinct codes, so the reverse
/// lookup is a well-defined partial function.
pub proof fn lemma_codes_distinct(a: Button, b: Button, p: Platform)
    requires
        a != b,
    ensures
        standard_code(a, p) != standard_code(b, p),
{
}

/// The reverse lookup finds a button exactly when that button has the code.
pub proof fn lemma_reverse_exact(code: usize, p: Platform, b: Button)
    ensures
        standard_button(code, p) == Some(b) <==> standard_code(b, p) == code,
{
}

/// The button whose canonical name is exactly `t`.
pub open spec fn button_of_name(t: Seq<char>) -> Option<Button> {
    if t == "Left"@ {
        Some(Button::Left)
    } else if t == "Right"@ {
        Some(Button::Right)
    } else if t == "Middle"@ {
        Some(Button::Middle)
    } else if t == "X1"@ {
        Some(Button::X1)
    } else if t == "X2"@ {
        Some(Button::X2)
    } else if t == "Extra3"@ {
        Some(Button::Extra3)
    } else if t == "Extra4"@ {
        Some(Button::Extra4)
    } else if t == "Extra5"@ {
        Some(Button::Extra5)
    } else if t == "Extra6"@ {
        Some(Button::Extra6)
    } else if t == "Extra7"@ {
        Some(Button::Extra7)
    } else if t == "Extra8"@ {
        Some(Button::Extra8)
    } else {
        None
    }
}

/// The button whose canonical name, in ASCII lower case, is `l`.
pub open spec fn button_of_lower_name(l: Seq<char>) -> Option<Button> {
    if l == "left"@ {
        Some(Button::Left)
    } else if l == "right"@ {
        Some(Button::Right)
    } else if l == "middle"@ {
        Some(Button::Middle)
    } else if l == "x1"@ {
        Some(Button::X1)
    } else if l == "x2"@ {
        Some(Button::X2)
    } else if l == "extra3"@ {
        Some(Button::Extra3)
    } else if l == "extra4"@ {
        Some(Button::Extra4)
    } else if l == "extra5"@ {
        Some(Button::Extra5)
    } else if l == "extra6"@ {
        Some(Button::Extra6)
    } else if l == "extra7"@ {
        Some(Button::Extra7)
    } else if l == "extra8"@ {
        Some(Button::Extra8)
    } else {
        None
    }
}

/// A found button, or `UnknownButton(t)`.
pub open spec fn found_or_unknown<T>(f: Option<T>, t: Seq<char>) -> Result<T, ParseFailure> {
    match f {
        Some(b) => Ok(b),
        None => Err(ParseFailure::UnknownButton(t)),
    }
}

/// Parse a button from a string with exact matching.
pub fn parse_button_from_str(s: &str) -> (r: Result<Button, MouseParseError>)
    ensures
        outcome(r) == found_or_unknown(button_of_name(s@), s@),
{
    let v = to_chars(s);
    if chars_eq_str(&v, "Left") {
        Ok(Button::Left)
    } else if chars_eq_str(&v, "Right") {
        Ok(Button::Right)
    } else if chars_eq_str(&v, "Middle") {
        Ok(Button::Middle)
    } else if chars_eq_str(&v, "X1") {
        Ok(Button::X1)
    } else if chars_eq_str(&v, "X2") {
        Ok(Button::X2)
    } else if chars_eq_str(&v, "Extra3") {
        Ok(Button::Extra3)
    } else if chars_eq_str(&v, "Extra4") {
        Ok(Button::Extra4)
    } else if chars_eq_str(&v, "Extra5") {
        Ok(Button::Extra5)
    } else if chars_eq_str(&v, "Extra6") {
        Ok(Button::Extra6)
    } else if chars_eq_str(&v, "Extra7") {
        Ok(Button::Extra7)
    } else if chars_eq_str(&v, "Extra8") {
        Ok(Button::Extra8)
    } else {
        Err(MouseParseError::UnknownButton(s.to_owned()))
    }
}

/// The button whose lower-case canonical name the characters spell.
pub(crate) fn lookup_lower_name(l: &Vec<char>) -> (r: Option<Button>)
    ensures
        r == button_of_lower_name(l@),
{
    if chars_eq_str(l, "left") {
        Some(Button::Left)
    } else if chars_eq_str(l, "right") {
        Some(Button::Right)
    } else if chars_eq_str(l, "middle") {
        Some(Button::Middle)
    } else if chars_eq_str(l, "x1") {
        Some(Button::X1)
    } else if chars_eq_str(l, "x2") {
        Some(Button::X2)
    } else if chars_eq_str(l, "extra3") {
        Some(Button::Extra3)
    } else if chars_eq_str(l, "extra4") {
        Some(Button::Extra4)
    } else if chars_eq_str(l, "extra5") {
        Some(Button::Extra5)
    } else if chars_eq_str(l, "extra6") {
        Some(Button::Extra6)
    } else if chars_eq_str(l, "extra7") {
        Some(Button::Extra7)
    } else if chars_eq_str(l, "extra8") {
        Some(Button::Extra8)
    } else {
        None
    }
}

/// Parse a button from a string, ignoring ASCII case only.
pub fn parse_button_ignore_case(s: &str) -> (r: Result<Button, MouseParseError>)
    ensures
        outcome(r) == found_or_unknown(button_of_lower_name(ascii_lower(s@)), s@),
{
    let l = lower_chars(&to_chars(s));
    match lookup_lower_name(&l) {
        Some(b) => Ok(b),
        None => Err(MouseParseError::UnknownButton(s.to_owned())),
    }
}

/// Folding to upper case and then to lower case gives the lower case.
pub proof fn lemma_lower_of_upper(t: Seq<char>)
    ensures
        ascii_lower(ascii_upper(t)) == ascii_lower(t),
{
    assert forall|i: int| 0 <= i < t.len() implies lower_char(upper_char(t[i])) == lower_char(
        t[i],
    ) by {
        let c = t[i];
        if 'a' <= c && c <= 'z' {
            assert(upper_char(c) as u32 + 32 == c as u32);
        }
    }
    assert(ascii_lower(ascii_upper(t)) =~= ascii_lower(t));
}

/// The lower case of a canonical name is the lower-case name of that button.
pub proof fn lemma_lower_name(b: Button)
    ensures
        button_of_lower_name(ascii_lower(b.name_spec())) == Some(b),
{
    reveal_strlit("Left");
    reveal_strlit("Right");
    reveal_strlit("Middle");
    reveal_strlit("X1");
    reveal_strlit("X2");
    reveal_strlit("Extra3");
    reveal_strlit("Extra4");
    reveal_strlit("Extra5");
    reveal_strlit("Extra6");
    reveal_strlit("Extra7");
    reveal_strlit("Extra8");
    reveal_strlit("left");
    reveal_strlit("right");
    reveal_strlit("middle");
    reveal_strlit("x1");
    reveal_strlit("x2");
    reveal_strlit("extra3");
    reveal_strlit("extra4");
    reveal_strlit("extra5");
    reveal_strlit("extra6");
    reveal_strlit("extra7");
    reveal_strlit("extra8");
    assert("x1"@[1] == '1' && "x2"@[1] == '2');
    assert("middle"@[0] == 'm' && "middle"@[5] == 'e');
    assert("extra3"@[0] == 'e' && "extra3"@[5] == '3');
    assert("extra4"@[5] == '4' && "extra5"@[5] == '5' && "extra6"@[5] == '6');
    assert("extra7"@[5] == '7' && "extra8"@[5] == '8');
    match b {
        Button::Left => {
            assert(ascii_lower("Left"@) =~= "left"@);
            assert(button_of_lower_name("left"@) == Some(Button::Left));
        },
        Button::Right => {
            assert(ascii_lower("Right"@) =~= "right"@);
            assert(button_of_lower_name("right"@) == Some(Button::Right));
        },
        Button::Middle => {
            assert(ascii_lower("Middle"@) =~= "middle"@);
            assert(button_of_lower_name("middle"@) == Some(Button::Middle));
        },
        Button::X1 => {
            assert(ascii_lower("X1"@) =~= "x1"@);
            assert(button_of_lower_name("x1"@) == Some(Button::X1));
        },
        Button::X2 => {
            assert(ascii_lower("X2"@) =~= "x2"@);
            assert(button_of_lower_name("x2"@) == Some(Button::X2));
        },
        Button::Extra3 => {
            assert(ascii_lower("Extra3"@) =~= "extra3"@);
            assert(button_of_lower_name("extra3"@) == Some(Button::Extra3));
        },
        Button::Extra4 => {
            assert(ascii_lower("Extra4"@) =~= "extra4"@);
            assert(button_of_lower_name("extra4"@) == Some(Button::Extra4));
        },
        Button::Extra5 => {
            assert(ascii_lower("Extra5"@) =~= "extra5"@);
            assert(button_of_lower_name("extra5"@) == Some(Button::Extra5));
        },
        Button::Extra6 => {
            assert(ascii_lower("Extra6"@) =~= "extra6"@);
            assert(button_of_lower_name("extra6"@) == Some(Button::Extra6));
        },
        Button::Extra7 => {
            assert(ascii_lower("Extra7"@) =~= "extra7"@);
            assert(button_of_lower_name("extra7"@) == Some(Button::Extra7));
        },
        Button::Extra8 => {
            assert(ascii_lower("Extra8"@) =~= "extra8"@);
            assert(button_of_lower_name("extra8"@) == Some(Button::Extra8));
        },
    }
}

/// Every canonical name parses exactly to its button, and its ASCII upper case
/// parses to the same button when case is ignored.
pub proof fn lemma_name_round_trip(b: Button)
    ensures
        button_of_name(b.name_spec()) == Some(b),
        button_of_lower_name(ascii_lower(ascii_upper(b.name_spec()))) == Some(b),
{
    lemma_lower_of_upper(b.name_spec());
    lemma_lower_name(b);
    reveal_strlit("Left");
    reveal_strlit("Right");
    reveal_strlit("Middle");
    reveal_strlit("X1");
    reveal_strlit("X2");
    reveal_strlit("Extra3");
    reveal_strlit("Extra4");
    reveal_strlit("Extra5");
    reveal_strlit("Extra6");
    reveal_strlit("Extra7");
    reveal_strlit("Extra8");
    assert("X1"@[1] == '1' && "X2"@[1] == '2');
    assert("Middle"@[0] == 'M' && "Middle"@[5] == 'e');
    assert("Extra3"@[0] == 'E' && "Extra3"@[5] == '3');
    assert("Extra4"@[5] == '4' && "Extra5"@[5] == '5' && "Extra6"@[5] == '6');
    assert("Extra7"@[5] == '7' && "Extra8"@[5] == '8');
}

} // verus!
