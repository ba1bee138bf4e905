//! Whole-table views of the standard mapping.
use vstd::prelude::*;

use std::collections::HashMap;

use crate::mapping::standard::{standard_button, standard_code};
use crate::text::{string_of, to_chars};
use crate::types::button::all_buttons;
use crate::types::{Button, CodeMapper, Platform};

verus! {

broadcast use vstd::std_specs::hash::group_hash_axioms;

/// Every button stands in the list of all buttons.
pub proof fn lemma_all_buttons_listed(b: Button)
    ensures
        exists|j: int| 0 <= j < all_buttons().len() && all_buttons()[j] == b,
{
    let j: int = match b {
        Button::Left => 0,
        Button::Right => 1,
        Button::Middle => 2,
        Button::X1 => 3,
        Button::X2 => 4,
        Button::Extra3 => 5,
        Button::Extra4 => 6,
        Button::Extra5 => 7,
        Button::Extra6 => 8,
        Button::Extra7 => 9,
        Button::Extra8 => 10,
    };
    assert(all_buttons()[j] == b);
}

/// Get a list of all standard mouse buttons, in declaration order.
pub fn all_standard_buttons() -> (r: Vec<Button>)
    ensures
        r@ == all_buttons(),
{
    let r = vec![
        Button::Left,
        Button::Right,
        Button::Middle,
        Button::X1,
        Button::X2,
        Button::Extra3,
        Button::Extra4,
        Button::Extra5,
        Button::Extra6,
        Button::Extra7,
        Button::Extra8,
    ];
    assert(r@ =~= all_buttons());
    r
}

/// The canonical name of the button that a code stands for on a platform.
pub fn code_to_name(code: usize, platform: Platform) -> (r: Option<String>)
    ensures
        match standard_button(code, platform) {
            Some(b) => r matches Some(s) && s@ == b.name_spec(),
            None => r is None,
        },
{
    match Button::from_code(code, platform) {
        Some(b) => Some(string_of(&to_chars(b.as_str()))),
        None => None,
    }
}

/// Every button paired with its code on a platform, in declaration order.
pub fn platform_button_mapping(platform: Platform) -> (r: Vec<(Button, usize)>)
    ensures
        r@ == all_buttons().map_values(|b: Button| (b, standard_code(b, platform))),
{
    let buttons = all_standard_buttons();
    let mut r: Vec<(Button, usize)> = Vec::new();
    for i in 0..buttons.len()
        invariant
            buttons@ == all_buttons(),
            r@ == all_buttons().take(i as int).map_values(
                |b: Button| (b, standard_code(b, platform)),
            ),
    {
        let b = buttons[i];
        r.push((b, b.to_code(platform)));
        assert(all_buttons().take(i + 1) =~= all_buttons().take(i as int).push(b));
        assert(r@ =~= all_buttons().take(i + 1).map_values(
            |b: Button| (b, standard_code(b, platform)),
        ));
    }
    assert(all_buttons().take(11) =~= all_buttons());
    r
}

/// The standard reverse table of a platform, as a map from code to button.
pub open spec fn reverse_table(p: Platform) -> Map<usize, Button> {
    Map::new(|c: usize| standard_button(c, p) is Some, |c: usize| standard_button(c, p)->Some_0)
}

/// Every code of a platform mapped to its button.
pub fn platform_code_mapping(platform: Platform) -> (r: HashMap<usize, Button>)
    ensures
        r@ == reverse_table(platform),
{
    let buttons = all_standard_buttons();
    let mut r: HashMap<usize, Button> = HashMap::new();
    for i in 0..buttons.len()
        invariant
            buttons@ == all_buttons(),
            forall|c: usize|
                r@.contains_key(c) <==> exists|j: int|
                    0 <= j < i && standard_code(all_buttons()[j], platform) == c,
            forall|c: usize| r@.contains_key(c) ==> standard_button(c, platform) == Some(r@[c]),
    {
        let b = buttons[i];
        let c = b.to_code(platform);
        r.insert(c, b);
        assert(standard_code(all_buttons()[i as int], platform) == c);
    }
    assert forall|c: usize| r@.contains_key(c) <==> standard_button(c, platform) is Some by {
        if standard_button(c, platform) is Some {
            let b = standard_button(c, platform)->Some_0;
            lemma_all_buttons_listed(b);
            let j = choose|j: int| 0 <= j < all_buttons().len() && all_buttons()[j] == b;
            assert(standard_code(all_buttons()[j], platform) == c);
        }
    }
    assert(r@ =~= reverse_table(platform));
    r
}

} // verus!
