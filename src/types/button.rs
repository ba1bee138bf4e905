//! The closed set of standard mouse buttons and their canonical names.
use vstd::prelude::*;

verus! {

/// Mouse button enumeration.
#[derive(Debug, Clone, Copy, PartialEq, Eq, PartialOrd, Ord, Hash, Structural)]
pub enum Button {
    /// Left mouse button
    Left,
    /// Right mouse button
    Right,
    /// Middle mouse button (scroll wheel press)
    Middle,
    /// X1 button (usually back)
    X1,
    /// X2 button (usually forward)
    X2,
    /// Extra button 3
    Extra3,
    /// Extra button 4
    Extra4,
    /// Extra button 5
    Extra5,
    /// Extra button 6
    Extra6,
    /// Extra button 7
    Extra7,
    /// Extra button 8
    Extra8,
}

/// Every standard button, in declaration order.
pub open spec fn all_buttons() -> Seq<Button> {
    seq![
        Button::Left,
        Button::Right,
        Button::Middle,
        Button::X1,
        Button::X2,
        Button::Extra3,
        Button::Extra4,
        Button::Extra5,
        Button::Extra6,
        Button::Extra7,
        Button::Extra8,
    ]
}

impl Button {
    /// The canonical name of this button.
    pub open spec fn name_spec(self) -> Seq<char> {
        match self {
            Button::Left => "Left"@,
            Button::Right => "Right"@,
            Button::Middle => "Middle"@,
            Button::X1 => "X1"@,
            Button::X2 => "X2"@,
            Button::Extra3 => "Extra3"@,
            Button::Extra4 => "Extra4"@,
            Button::Extra5 => "Extra5"@,
            Button::Extra6 => "Extra6"@,
            Button::Extra7 => "Extra7"@,
            Button::Extra8 => "Extra8"@,
        }
    }

    /// Get the canonical name of the button.
    pub fn as_str(&self) -> (r: &'static str)
        ensures
            r@ == self.name_spec(),
    {
        match self {
            Button::Left => "Left",
            Button::Right => "Right",
            Button::Middle => "Middle",
            Button::X1 => "X1",
            Button::X2 => "X2",
            Button::Extra3 => "Extra3",
            Button::Extra4 => "Extra4",
            Button::Extra5 => "Extra5",
            Button::Extra6 => "Extra6",
            Button::Extra7 => "Extra7",
            Button::Extra8 => "Extra8",
        }
    }
}

} // verus!
