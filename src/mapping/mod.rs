//! Standard and custom mappings between buttons and platform codes.
use vstd::prelude::*;

use std::collections::HashMap;

use crate::mapping::standard::{standard_button, standard_code};
use crate::types::button::all_buttons;
use crate::types::{Button, CodeMapper, Platform};
use crate::utils::{platform_button_mapping, platform_code_mapping, reverse_table};

pub mod custom;
pub mod standard;

pub use custom::{CustomButton, CustomButtonMap};
pub use standard::parse_button_from_str;

verus! {

/// The standard code of a button on a platform.
pub fn get_code(button: &Button, platform: Platform) -> (r: usize)
    ensures
        r == standard_code(*button, platform),
{
    button.to_code(platform)
}

/// The standard button that a code stands for on a platform, if any.
pub fn get_button(code: usize, platform: Platform) -> (r: Option<Button>)
    ensures
        r == standard_button(code, platform),
{
    Button::from_code(code, platform)
}

/// All standard buttons paired with their codes on a platform.
pub fn standard_mapping(platform: Platform) -> (r: Vec<(Button, usize)>)
    ensures
        r@ == all_buttons().map_values(|b: Button| (b, standard_code(b, platform))),
{
    platform_button_mapping(platform)
}

/// The standard reverse mapping (code to button) of a platform.
pub fn reverse_standard_mapping(platform: Platform) -> (r: HashMap<usize, Button>)
    ensures
        r@ == reverse_table(platform),
{
    platform_code_mapping(platform)
}

} // verus!
