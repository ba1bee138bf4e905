//! Parsing of button aliases, scroll directions and textual mouse events.
use vstd::prelude::*;

use crate::error::{outcome, MouseParseError, ParseFailure};
use crate::mapping::standard::{
    button_of_lower_name, found_or_unknown, lemma_lower_name, lookup_lower_name,
};
use crate::text::{
    ascii_lower, chars_eq_str, find_char, int_text, int_value, is_first, lemma_int_text,
    lemma_split_pair, lemma_trim_one_space, lemma_trim_plain, lower_chars, occurs, parse_int,
    split_comma, split_pair, string_of, sub_chars, to_chars, trim, trim_chars,
};
use crate::types::event::pair_text;
use crate::types::{Button, MouseEvent, ScrollDirection};

verus! {

/// The button that a lower-case name or alias stands for.
pub open spec fn button_of_alias(l: Seq<char>) -> Option<Button> {
    if l == "lmb"@ {
        Some(Button::Left)
    } else if l == "rmb"@ {
        Some(Button::Right)
    } else if l == "mmb"@ || l == "wheel"@ {
        Some(Button::Middle)
    } else if l == "back"@ {
        Some(Button::X1)
    } else if l == "forward"@ {
        Some(Button::X2)
    } else {
        button_of_lower_name(l)
    }
}

/// What alias-aware parsing gives for `s`: `EmptyInput` for the empty text,
/// else the button that its lower case names, else `UnknownButton` of its lower
/// case.
pub open spec fn alias_result(s: Seq<char>) -> Result<Button, ParseFailure> {
    if s.len() == 0 {
        Err(ParseFailure::EmptyInput)
    } else {
        found_or_unknown(button_of_alias(ascii_lower(s)), ascii_lower(s))
    }
}

/// The scroll direction that a lower-case name or short alias stands for.
pub open spec fn direction_of_lower(l: Seq<char>) -> Option<ScrollDirection> {
    if l == "verticalup"@ || l == "up"@ {
        Some(ScrollDirection::VerticalUp)
    } else if l == "verticaldown"@ || l == "down"@ {
        Some(ScrollDirection::VerticalDown)
    } else if l == "horizontalleft"@ || l == "left"@ {
        Some(ScrollDirection::HorizontalLeft)
    } else if l == "horizontalright"@ || l == "right"@ {
        Some(ScrollDirection::HorizontalRight)
    } else {
        None
    }
}

/// What scroll-direction parsing gives for `s`.
pub open spec fn direction_result(s: Seq<char>) -> Result<ScrollDirection, ParseFailure> {
    found_or_unknown(direction_of_lower(ascii_lower(s)), ascii_lower(s))
}

/// The two integers of an argument list `x, y`, each trimmed of whitespace.
pub open spec fn int_pair(params: Seq<char>) -> Option<(i32, i32)> {
    match split_pair(params) {
        Some((a, b)) => match (int_value(trim(a)), int_value(trim(b))) {
            (Some(x), Some(y)) => Some((x, y)),
            _ => None,
        },
        None => None,
    }
}

/// The event of kind `kind` with argument text `params`; `s` is the whole
/// input, which structural failures report.
pub open spec fn event_of_parts(s: Seq<char>, kind: Seq<char>, params: Seq<char>) -> Result<
    MouseEvent,
    ParseFailure,
> {
    if kind == "Press"@ {
        match alias_result(params) {
            Ok(b) => Ok(MouseEvent::Press(b)),
            Err(e) => Err(e),
        }
    } else if kind == "Release"@ {
        match alias_result(params) {
            Ok(b) => Ok(MouseEvent::Release(b)),
            Err(e) => Err(e),
        }
    } else if kind == "Scroll"@ {
        match split_pair(params) {
            Some((a, b)) => match direction_result(trim(a)) {
                Ok(d) => match int_value(trim(b)) {
                    Some(n) => Ok(MouseEvent::Scroll(d, n)),
                    None => Err(ParseFailure::UnknownButton(s)),
                },
                Err(e) => Err(e),
            },
            None => Err(ParseFailure::UnknownButton(s)),
        }
    } else if kind == "Move"@ {
        match int_pair(params) {
            Some((x, y)) => Ok(MouseEvent::Move(x, y)),
            None => Err(ParseFailure::UnknownButton(s)),
        }
    } else if kind == "RelativeMove"@ {
        match int_pair(params) {
            Some((x, y)) => Ok(MouseEvent::RelativeMove(x, y)),
            None => Err(ParseFailure::UnknownButton(s)),
        }
    } else {
        Err(ParseFailure::UnknownButton(s))
    }
}

/// What event parsing gives for `s`: the text is split at its first `(`
/// into a kind and, once a final `)` is removed, an argument text.
pub open spec fn event_result(s: Seq<char>) -> Result<MouseEvent, ParseFailure> {
    if s.len() == 0 {
        Err(ParseFailure::EmptyInput)
    } else if exists|i: int| is_first(s, '(', i) {
        let i = choose|i: int| is_first(s, '(', i);
        let rest = s.subrange(i + 1, s.len() as int);
        if rest.len() > 0 && rest.last() == ')' {
            event_of_parts(s, s.subrange(0, i), rest.drop_last())
        } else {
            Err(ParseFailure::UnknownButton(s))
        }
    } else {
        Err(ParseFailure::UnknownButton(s))
    }
}

/// Alias-aware parsing of characters.
fn button_alias_chars(t: &Vec<char>) -> (r: Result<Button, MouseParseError>)
    ensures
        outcome(r) == alias_result(t@),
{
    if t.len() == 0 {
        return Err(MouseParseError::EmptyInput);
    }
    let l = lower_chars(t);
    if chars_eq_str(&l, "lmb") {
        Ok(Button::Left)
    } else if chars_eq_str(&l, "rmb") {
        Ok(Button::Right)
    } else if chars_eq_str(&l, "mmb") || chars_eq_str(&l, "wheel") {
        Ok(Button::Middle)
    } else if chars_eq_str(&l, "back") {
        Ok(Button::X1)
    } else if chars_eq_str(&l, "forward") {
        Ok(Button::X2)
    } else {
        match lookup_lower_name(&l) {
            Some(b) => Ok(b),
            None => Err(MouseParseError::UnknownButton(string_of(&l))),
        }
    }
}

/// Parse a button with support for common aliases (`lmb`, `rmb`, `mmb`,
/// `wheel`, `back`, `forward`), ignoring ASCII case.
pub fn parse_button_with_aliases(s: &str) -> (r: Result<Button, MouseParseError>)
    ensures
        outcome(r) == alias_result(s@),
{
    button_alias_chars(&to_chars(s))
}

/// Scroll-direction parsing of characters.
fn direction_chars(t: &Vec<char>) -> (r: Result<ScrollDirection, MouseParseError>)
    ensures
        outcome(r) == direction_result(t@),
{
    let l = lower_chars(t);
    if chars_eq_str(&l, "verticalup") || chars_eq_str(&l, "up") {
        Ok(ScrollDirection::VerticalUp)
    } else if chars_eq_str(&l, "verticaldown") || chars_eq_str(&l, "down") {
        Ok(ScrollDirection::VerticalDown)
    } else if chars_eq_str(&l, "horizontalleft") || chars_eq_str(&l, "left") {
        Ok(ScrollDirection::HorizontalLeft)
    } else if chars_eq_str(&l, "horizontalright") || chars_eq_str(&l, "right") {
        Ok(ScrollDirection::HorizontalRight)
    } else {
        Err(MouseParseError::UnknownButton(string_of(&l)))
    }
}

/// Parse a scroll direction from a string, ignoring ASCII case; accepts the
/// four canonical names and `up`, `down`, `left`, `right`.
pub fn parse_scroll_direction(s: &str) -> (r: Result<ScrollDirection, MouseParseError>)
    ensures
        outcome(r) == direction_result(s@),
{
    direction_chars(&to_chars(s))
}

/// The two trimmed integers of an argument list `x, y`.
fn int_pair_chars(params: &Vec<char>) -> (r: Option<(i32, i32)>)
    ensures
        r == int_pair(params@),
{
    match split_comma(params) {
        Some((a, b)) => {
            let x = parse_int(&trim_chars(&a));
            let y = parse_int(&trim_chars(&b));
            match (x, y) {
                (Some(x), Some(y)) => Some((x, y)),
                _ => None,
            }
        },
        None => None,
    }
}

/// Parse a mouse event from its textual form, such as `Press(Left)`,
/// `Release(Right)`, `Scroll(VerticalUp, 3)`, `Move(100, 200)` or
/// `RelativeMove(5, -3)`.
pub fn parse_mouse_input(s: &str) -> (r: Result<MouseEvent, MouseParseError>)
    ensures
        outcome(r) == event_result(s@),
{
    let v = to_chars(s);
    if v.len() == 0 {
        return Err(MouseParseError::EmptyInput);
    }
    let i = match find_char(&v, '(', 0) {
        Some(i) => i,
        None => {
            assert(!exists|i: int| is_first(v@, '(', i));
            return Err(MouseParseError::UnknownButton(s.to_owned()));
        },
    };
    assert(is_first(v@, '(', i as int));
    assert forall|k: int| is_first(v@, '(', k) implies k == i by {}
    let ghost rest = v@.subrange(i + 1, v@.len() as int);
    if !(i + 1 < v.len() && v[v.len() - 1] == ')') {
        return Err(MouseParseError::UnknownButton(s.to_owned()));
    }
    assert(rest.last() == v@[v@.len() - 1]);
    let kind = sub_chars(&v, 0, i);
    let params = sub_chars(&v, i + 1, v.len() - 1);
    assert(params@ =~= rest.drop_last());
    if chars_eq_str(&kind, "Press") {
        match button_alias_chars(&params) {
            Ok(b) => Ok(MouseEvent::Press(b)),
            Err(e) => Err(e),
        }
    } else if chars_eq_str(&kind, "Release") {
        match button_alias_chars(&params) {
            Ok(b) => Ok(MouseEvent::Release(b)),
            Err(e) => Err(e),
        }
    } else if chars_eq_str(&kind, "Scroll") {
        match split_comma(&params) {
            Some((a, b)) => match direction_chars(&trim_chars(&a)) {
                Ok(d) => match parse_int(&trim_chars(&b)) {
                    Some(n) => Ok(MouseEvent::Scroll(d, n)),
                    None => Err(MouseParseError::UnknownButton(s.to_owned())),
                },
                Err(e) => Err(e),
            },
            None => Err(MouseParseError::UnknownButton(s.to_owned())),
        }
    } else if chars_eq_str(&kind, "Move") {
        match int_pair_chars(&params) {
            Some((x, y)) => Ok(MouseEvent::Move(x, y)),
            None => Err(MouseParseError::UnknownButton(s.to_owned())),
        }
    } else if chars_eq_str(&kind, "RelativeMove") {
        match int_pair_chars(&params) {
            Some((x, y)) => Ok(MouseEvent::RelativeMove(x, y)),
            None => Err(MouseParseError::UnknownButton(s.to_owned())),
        }
    } else {
        Err(MouseParseError::UnknownButton(s.to_owned()))
    }
}

/// Each alias parses, in any ASCII case, to its button.
pub proof fn lemma_alias_parses(s: Seq<char>)
    ensures
        ascii_lower(s) == "lmb"@ ==> alias_result(s) == Ok::<Button, ParseFailure>(Button::Left),
        ascii_lower(s) == "rmb"@ ==> alias_result(s) == Ok::<Button, ParseFailure>(Button::Right),
        ascii_lower(s) == "mmb"@ ==> alias_result(s) == Ok::<Button, ParseFailure>(Button::Middle),
        ascii_lower(s) == "wheel"@ ==> alias_result(s) == Ok::<Button, ParseFailure>(
            Button::Middle,
        ),
        ascii_lower(s) == "back"@ ==> alias_result(s) == Ok::<Button, ParseFailure>(Button::X1),
        ascii_lower(s) == "forward"@ ==> alias_result(s) == Ok::<Button, ParseFailure>(Button::X2),
{
    reveal_strlit("lmb");
    reveal_strlit("rmb");
    reveal_strlit("mmb");
    reveal_strlit("wheel");
    reveal_strlit("back");
    reveal_strlit("forward");
    assert("lmb"@[0] == 'l' && "rmb"@[0] == 'r' && "mmb"@[0] == 'm');
    assert(ascii_lower(s).len() == s.len());
}

/// No alias is, in any ASCII case, the canonical name of a standard button.
pub proof fn lemma_aliases_not_names(b: Button)
    ensures
        ascii_lower(b.name_spec()) != "lmb"@,
        ascii_lower(b.name_spec()) != "rmb"@,
        ascii_lower(b.name_spec()) != "mmb"@,
        ascii_lower(b.name_spec()) != "wheel"@,
        ascii_lower(b.name_spec()) != "back"@,
        ascii_lower(b.name_spec()) != "forward"@,
{
    lemma_lower_name(b);
    reveal_strlit("lmb");
    reveal_strlit("rmb");
    reveal_strlit("mmb");
    reveal_strlit("wheel");
    reveal_strlit("back");
    reveal_strlit("forward");
    reveal_strlit("left");
    reveal_strlit("right");
    reveal_strlit("middle");
    reveal_strlit("x1");
    reveal_strlit("x2");
    reveal_strlit("extra3");
    reveal_strlit("extra4");
    reveal_strlit("extra5");
    reveal_strlit("extra6");
    reveal_strlit("extra7");
    reveal_strlit("extra8");
    assert("wheel"@[0] == 'w' && "right"@[0] == 'r');
    assert("back"@[0] == 'b' && "left"@[0] == 'l');
    assert("left"@.len() == 4 && "right"@.len() == 5 && "middle"@.len() == 6);
    assert("x1"@.len() == 2 && "x2"@.len() == 2 && "extra3"@.len() == 6);
    assert("extra4"@.len() == 6 && "extra5"@.len() == 6 && "extra6"@.len() == 6);
    assert("extra7"@.len() == 6 && "extra8"@.len() == 6);
    assert("lmb"@.len() == 3 && "rmb"@.len() == 3 && "mmb"@.len() == 3);
    assert(button_of_lower_name("lmb"@) is None);
    assert(button_of_lower_name("rmb"@) is None);
    assert(button_of_lower_name("mmb"@) is None);
    assert(button_of_lower_name("wheel"@) is None);
    assert(button_of_lower_name("back"@) is None);
    assert(button_of_lower_name("forward"@) is None);
}

/// A text of the shape `kind(args)`, where `kind` holds no `(`, is parsed as
/// an event of that kind with that argument text.
proof fn lemma_event_shape(kind: Seq<char>, args: Seq<char>)
    requires
        !occurs(kind, '('),
    ensures
        event_result(kind + seq!['('] + args + seq![')']) == event_of_parts(
            kind + seq!['('] + args + seq![')'],
            kind,
            args,
        ),
{
    let s = kind + seq!['('] + args + seq![')'];
    let k = kind.len() as int;
    assert(s[k] == '(');
    assert forall|j: int| 0 <= j < k implies s[j] != '(' by {
        assert(s[j] == kind[j]);
    }
    assert(is_first(s, '(', k));
    let i = choose|i: int| is_first(s, '(', i);
    assert(i == k);
    let rest = s.subrange(k + 1, s.len() as int);
    assert(rest =~= args + seq![')']);
    assert(rest.drop_last() =~= args);
    assert(s.subrange(0, k) =~= kind);
}

/// No comma in a text preceded by a space.
proof fn lemma_no_comma_after_space(t: Seq<char>)
    requires
        !occurs(t, ','),
    ensures
        !occurs(seq![' '] + t, ','),
{
    let u = seq![' '] + t;
    assert forall|i: int| 0 <= i < u.len() implies u[i] != ',' by {
        if i > 0 {
            assert(u[i] == t[i - 1]);
        }
    }
}

/// The display form of a pair of integers reads back as that pair.
proof fn lemma_pair_text(x: i32, y: i32)
    ensures
        int_pair(pair_text(x, y)) == Some((x, y)),
{
    reveal_strlit(", ");
    let a = int_text(x as int);
    let b = int_text(y as int);
    lemma_int_text(x);
    lemma_int_text(y);
    lemma_no_comma_after_space(b);
    assert(pair_text(x, y) =~= a + seq![','] + (seq![' '] + b));
    lemma_split_pair(a, seq![' '] + b);
    lemma_trim_plain(a);
    lemma_trim_one_space(b);
}

/// The name of a scroll direction holds no comma, is its own trim, and reads
/// back as that direction.
proof fn lemma_direction_name(d: ScrollDirection)
    ensures
        !occurs(d.name_spec(), ','),
        trim(d.name_spec()) == d.name_spec(),
        direction_result(d.name_spec()) == Ok::<ScrollDirection, ParseFailure>(d),
{
    reveal_strlit("VerticalUp");
    reveal_strlit("VerticalDown");
    reveal_strlit("HorizontalLeft");
    reveal_strlit("HorizontalRight");
    reveal_strlit("verticalup");
    reveal_strlit("verticaldown");
    reveal_strlit("horizontalleft");
    reveal_strlit("horizontalright");
    reveal_strlit("up");
    reveal_strlit("down");
    reveal_strlit("left");
    reveal_strlit("right");
    let n = d.name_spec();
    lemma_trim_plain(n);
    match d {
        ScrollDirection::VerticalUp => assert(ascii_lower(n) =~= "verticalup"@),
        ScrollDirection::VerticalDown => assert(ascii_lower(n) =~= "verticaldown"@),
        ScrollDirection::HorizontalLeft => assert(ascii_lower(n) =~= "horizontalleft"@),
        ScrollDirection::HorizontalRight => assert(ascii_lower(n) =~= "horizontalright"@),
    }
}

/// A canonical button name reads back, through alias-aware parsing, as that
/// button.
proof fn lemma_button_name_alias(b: Button)
    ensures
        alias_result(b.name_spec()) == Ok::<Button, ParseFailure>(b),
{
    lemma_lower_name(b);
    lemma_aliases_not_names(b);
    reveal_strlit("Left");
    reveal_strlit("Right");
    reveal_strlit("Middle");
    reveal_strlit("X1");
    reveal_strlit("X2");
    reveal_strlit("Extra3");
    reveal_strlit("Extra4");
    reveal_strlit("Extra5");
    reveal_strlit("Extra6");
    reveal_strlit("Extra7");
    reveal_strlit("Extra8");
}

/// Parsing the display form of any event gives that event back.
pub proof fn lemma_event_round_trip(e: MouseEvent)
    ensures
        event_result(e.text_spec()) == Ok::<MouseEvent, ParseFailure>(e),
{
    reveal_strlit("Press(");
    reveal_strlit("Release(");
    reveal_strlit("Scroll(");
    reveal_strlit("Move(");
    reveal_strlit("RelativeMove(");
    reveal_strlit("Press");
    reveal_strlit("Release");
    reveal_strlit("Scroll");
    reveal_strlit("Move");
    reveal_strlit("RelativeMove");
    reveal_strlit(")");
    reveal_strlit(", ");
    let s = e.text_spec();
    match e {
        MouseEvent::Press(b) => {
            assert(s =~= "Press"@ + seq!['('] + b.name_spec() + seq![')']);
            lemma_event_shape("Press"@, b.name_spec());
            lemma_button_name_alias(b);
        },
        MouseEvent::Release(b) => {
            assert(s =~= "Release"@ + seq!['('] + b.name_spec() + seq![')']);
            lemma_event_shape("Release"@, b.name_spec());
            lemma_button_name_alias(b);
        },
        MouseEvent::Scroll(d, n) => {
            let t = int_text(n as int);
            let args = d.name_spec() + ", "@ + t;
            assert(s =~= "Scroll"@ + seq!['('] + args + seq![')']);
            lemma_event_shape("Scroll"@, args);
            lemma_int_text(n);
            lemma_direction_name(d);
            lemma_no_comma_after_space(t);
            assert(args =~= d.name_spec() + seq![','] + (seq![' '] + t));
            lemma_split_pair(d.name_spec(), seq![' '] + t);
            lemma_trim_one_space(t);
        },
        MouseEvent::Move(x, y) => {
            assert(s =~= "Move"@ + seq!['('] + pair_text(x, y) + seq![')']);
            lemma_event_shape("Move"@, pair_text(x, y));
            lemma_pair_text(x, y);
        },
        MouseEvent::RelativeMove(x, y) => {
            assert(s =~= "RelativeMove"@ + seq!['('] + pair_text(x, y) + seq![')']);
            lemma_event_shape("RelativeMove"@, pair_text(x, y));
            lemma_pair_text(x, y);
        },
    }
}

} // verus!
