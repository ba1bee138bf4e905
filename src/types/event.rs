//! Mouse events and scroll directions, with their textual forms.
use vstd::prelude::*;

use crate::text::{extend_chars, int_chars, int_text, string_of, to_chars};
use crate::types::Button;

verus! {

/// Mouse event type.
#[derive(Debug, Clone, Copy, PartialEq, Eq, Structural)]
pub enum MouseEvent {
    /// Button press event
    Press(Button),
    /// Button release event
    Release(Button),
    /// Scroll event with direction and amount
    Scroll(ScrollDirection, i32),
    /// Mouse movement event (x, y coordinates)
    Move(i32, i32),
    /// Mouse movement relative to previous position (dx, dy)
    RelativeMove(i32, i32),
}

/// Scroll direction enumeration.
#[derive(Debug, Clone, Copy, PartialEq, Eq, Structural)]
pub enum ScrollDirection {
    /// Vertical scroll up
    VerticalUp,
    /// Vertical scroll down
    VerticalDown,
    /// Horizontal scroll left
    HorizontalLeft,
    /// Horizontal scroll right
    HorizontalRight,
}

impl ScrollDirection {
    /// The canonical name of this direction.
    pub open spec fn name_spec(self) -> Seq<char> {
        match self {
            ScrollDirection::VerticalUp => "VerticalUp"@,
            ScrollDirection::VerticalDown => "VerticalDown"@,
            ScrollDirection::HorizontalLeft => "HorizontalLeft"@,
            ScrollDirection::HorizontalRight => "HorizontalRight"@,
        }
    }

    /// The canonical name of this direction.
    pub fn as_str(&self) -> (r: &'static str)
        ensures
            r@ == self.name_spec(),
    {
        match self {
            ScrollDirection::VerticalUp => "VerticalUp",
            ScrollDirection::VerticalDown => "VerticalDown",
            ScrollDirection::HorizontalLeft => "HorizontalLeft",
            ScrollDirection::HorizontalRight => "HorizontalRight",
        }
    }
}

/// The display form of a pair of integers: `x, y`.
pub open spec fn pair_text(x: i32, y: i32) -> Seq<char> {
    int_text(x as int) + ", "@ + int_text(y as int)
}

impl MouseEvent {
    /// The display form of this event, e.g. `Press(Left)` or `Move(100, 200)`.
    pub open spec fn text_spec(self) -> Seq<char> {
        match self {
            MouseEvent::Press(b) => "Press("@ + b.name_spec() + ")"@,
            MouseEvent::Release(b) => "Release("@ + b.name_spec() + ")"@,
            MouseEvent::Scroll(d, n) => "Scroll("@ + d.name_spec() + ", "@ + int_text(n as int)
                + ")"@,
            MouseEvent::Move(x, y) => "Move("@ + pair_text(x, y) + ")"@,
            MouseEvent::RelativeMove(x, y) => "RelativeMove("@ + pair_text(x, y) + ")"@,
        }
    }

    /// The display form of this event, e.g. `Press(Left)` or `Move(100, 200)`.
    pub fn to_text(&self) -> (r: String)
        ensures
            r@ == self.text_spec(),
    {
        let mut v: Vec<char> = Vec::new();
        match self {
            MouseEvent::Press(b) => {
                extend_chars(&mut v, &to_chars("Press("));
                extend_chars(&mut v, &to_chars(b.as_str()));
            },
            MouseEvent::Release(b) => {
                extend_chars(&mut v, &to_chars("Release("));
                extend_chars(&mut v, &to_chars(b.as_str()));
            },
            MouseEvent::Scroll(d, n) => {
                extend_chars(&mut v, &to_chars("Scroll("));
                extend_chars(&mut v, &to_chars(d.as_str()));
                extend_chars(&mut v, &to_chars(", "));
                extend_chars(&mut v, &int_chars(*n));
            },
            MouseEvent::Move(x, y) => {
                extend_chars(&mut v, &to_chars("Move("));
                extend_chars(&mut v, &int_chars(*x));
                extend_chars(&mut v, &to_chars(", "));
                extend_chars(&mut v, &int_chars(*y));
            },
            MouseEvent::RelativeMove(x, y) => {
                extend_chars(&mut v, &to_chars("RelativeMove("));
                extend_chars(&mut v, &int_chars(*x));
                extend_chars(&mut v, &to_chars(", "));
                extend_chars(&mut v, &int_chars(*y));
            },
        }
        extend_chars(&mut v, &to_chars(")"));
        proof {
            match self {
                MouseEvent::Move(x, y) => {
                    assert(v@ =~= "Move("@ + pair_text(*x, *y) + ")"@);
                },
                MouseEvent::RelativeMove(x, y) => {
                    assert(v@ =~= "RelativeMove("@ + pair_text(*x, *y) + ")"@);
                },
                _ => {},
            }
        }
        string_of(&v)
    }
}

} // verus!
