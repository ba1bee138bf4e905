//! Cross-platform mouse button codes: a closed set of standard buttons, their
//! codes on Windows, Linux and macOS, a registry of custom buttons layered over
//! them, and a parser for compact textual mouse events.
use vstd::prelude::*;

pub mod error;
pub mod mapping;
pub mod parser;
pub mod text;
pub mod types;
pub mod utils;

pub use error::MouseParseError;
pub use mapping::custom::{CustomButton, CustomButtonMap};
pub use mapping::standard::parse_button_ignore_case;
pub use parser::{parse_button_with_aliases, parse_mouse_input};
pub use types::{Button, CodeMapper, MouseEvent, Platform, ScrollDirection};

verus! {

impl std::str::FromStr for Button {
    type Err = MouseParseError;

    fn from_str(s: &str) -> Result<Button, MouseParseError> {
        mapping::standard::parse_button_from_str(s)
    }
}

} // verus!
