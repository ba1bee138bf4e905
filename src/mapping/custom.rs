//! A registry of custom buttons with per-platform codes, layered over the
//! standard table.
use vstd::prelude::*;

use std::collections::HashMap;

use crate::error::{MouseParseError, ParseFailure};
use crate::mapping::standard::{standard_button, standard_code};
use crate::text::{string_of, to_chars};
use crate::types::{Button, CodeMapper, Platform};

verus! {

broadcast use vstd::std_specs::hash::group_hash_axioms;

/// A custom mouse button that extends the standard button set.
#[derive(Debug, Clone, PartialEq, Eq, Hash)]
pub enum CustomButton {
    /// A standard mouse button
    Standard(Button),
    /// A custom-defined mouse button, identified by its name
    Custom(String),
}

/// The identity of a [`CustomButton`]: a standard button, or a name.
pub enum ButtonId {
    /// A standard button
    Standard(Button),
    /// A custom button's name
    Custom(Seq<char>),
}

impl ButtonId {
    /// The display form: the canonical name of a standard button, or the
    /// custom name.
    pub open spec fn text(self) -> Seq<char> {
        match self {
            ButtonId::Standard(b) => b.name_spec(),
            ButtonId::Custom(n) => n,
        }
    }
}

impl View for CustomButton {
    type V = ButtonId;

    open spec fn view(&self) -> ButtonId {
        match self {
            CustomButton::Standard(b) => ButtonId::Standard(*b),
            CustomButton::Custom(n) => ButtonId::Custom(n@),
        }
    }
}

/// The identity of an optional button.
pub open spec fn id_of(r: Option<CustomButton>) -> Option<ButtonId> {
    match r {
        Some(b) => Some(b@),
        None => None,
    }
}

impl CustomButton {
    /// The display form: the canonical name of a standard button, or the
    /// custom name.
    pub fn to_text(&self) -> (r: String)
        ensures
            r@ == self@.text(),
    {
        match self {
            CustomButton::Standard(b) => string_of(&to_chars(b.as_str())),
            CustomButton::Custom(n) => n.clone(),
        }
    }

    /// The code of a standard button on `platform`; a custom button has no
    /// code outside a registry.
    pub fn to_code(&self, platform: Platform) -> (r: Option<usize>)
        ensures
            r == match self@ {
                ButtonId::Standard(b) => Some(standard_code(b, platform)),
                ButtonId::Custom(_) => None::<usize>,
            },
    {
        match self {
            CustomButton::Standard(b) => Some(b.to_code(platform)),
            CustomButton::Custom(_) => None,
        }
    }

    /// The standard button that `code` stands for on `platform`, wrapped.
    pub fn from_code(code: usize, platform: Platform) -> (r: Option<CustomButton>)
        ensures
            r == match standard_button(code, platform) {
                Some(b) => Some(CustomButton::Standard(b)),
                None => None,
            },
    {
        match Button::from_code(code, platform) {
            Some(b) => Some(CustomButton::Standard(b)),
            None => None,
        }
    }

    /// A copy of this button.
    fn duplicate(&self) -> (r: CustomButton)
        ensures
            r == *self,
    {
        match self {
            CustomButton::Standard(b) => CustomButton::Standard(*b),
            CustomButton::Custom(n) => CustomButton::Custom(n.clone()),
        }
    }

    /// Whether two buttons have the same identity.
    fn same_as(&self, other: &CustomButton) -> (r: bool)
        ensures
            r == (self@ == other@),
    {
        match (self, other) {
            (CustomButton::Standard(a), CustomButton::Standard(b)) => *a == *b,
            (CustomButton::Custom(a), CustomButton::Custom(b)) => *a == *b,
            _ => false,
        }
    }
}

/// Optional codes on Windows, Linux and macOS.
pub type PlatformCodes = (Option<usize>, Option<usize>, Option<usize>);

/// The code that `codes` holds for platform `p`.
pub open spec fn code_at(codes: PlatformCodes, p: Platform) -> Option<usize> {
    match p {
        Platform::Windows => codes.0,
        Platform::Linux => codes.1,
        Platform::MacOS => codes.2,
    }
}

/// The mathematical value of a [`CustomButtonMap`].
pub struct RegistryView {
    /// The registry's label.
    pub label: Seq<char>,
    /// The codes recorded for each entry.
    pub forward: Map<ButtonId, PlatformCodes>,
    /// The entry that owns each recorded Windows code.
    pub windows: Map<usize, ButtonId>,
    /// The entry that owns each recorded Linux code.
    pub linux: Map<usize, ButtonId>,
    /// The entry that owns each recorded macOS code.
    pub macos: Map<usize, ButtonId>,
}

/// `m` with `(c, id)` added when a code `c` is given.
pub open spec fn add_code(m: Map<usize, ButtonId>, code: Option<usize>, id: ButtonId) -> Map<
    usize,
    ButtonId,
> {
    match code {
        Some(c) => m.insert(c, id),
        None => m,
    }
}

/// A code that is given and already taken in `m`.
pub open spec fn code_taken(m: Map<usize, ButtonId>, code: Option<usize>) -> bool {
    code matches Some(c) && m.contains_key(c)
}

impl RegistryView {
    /// The reverse table of platform `p`.
    pub open spec fn reverse(self, p: Platform) -> Map<usize, ButtonId> {
        match p {
            Platform::Windows => self.windows,
            Platform::Linux => self.linux,
            Platform::MacOS => self.macos,
        }
    }

    /// Adding `id` with `codes` conflicts with this registry: the identity is
    /// present, or one of the codes is taken on its platform.
    pub open spec fn clashes(self, id: ButtonId, codes: PlatformCodes) -> bool {
        ||| self.forward.contains_key(id)
        ||| code_taken(self.windows, codes.0)
        ||| code_taken(self.linux, codes.1)
        ||| code_taken(self.macos, codes.2)
    }

    /// This registry with `id` and its codes added.
    pub open spec fn with_entry(self, id: ButtonId, codes: PlatformCodes) -> RegistryView {
        RegistryView {
            label: self.label,
            forward: self.forward.insert(id, codes),
            windows: add_code(self.windows, codes.0, id),
            linux: add_code(self.linux, codes.1, id),
            macos: add_code(self.macos, codes.2, id),
        }
    }

    /// What `code` stands for on `p`: the registry's own entry, else the
    /// standard button.
    pub open spec fn lookup(self, code: usize, p: Platform) -> Option<ButtonId> {
        if self.reverse(p).contains_key(code) {
            Some(self.reverse(p)[code])
        } else {
            match standard_button(code, p) {
                Some(b) => Some(ButtonId::Standard(b)),
                None => None,
            }
        }
    }

    /// The code of `id` on `p`: a standard button's own code, or the code
    /// recorded for a custom entry.
    pub open spec fn code_for(self, id: ButtonId, p: Platform) -> Option<usize> {
        match id {
            ButtonId::Standard(b) => Some(standard_code(b, p)),
            ButtonId::Custom(_) => if self.forward.contains_key(id) {
                code_at(self.forward[id], p)
            } else {
                None
            },
        }
    }
}

/// A mapping for custom mouse buttons with platform-specific codes.
#[derive(Clone)]
pub struct CustomButtonMap {
    name: String,
    entries: Vec<(CustomButton, PlatformCodes)>,
    windows: HashMap<usize, CustomButton>,
    linux: HashMap<usize, CustomButton>,
    macos: HashMap<usize, CustomButton>,
    forward: Ghost<Map<ButtonId, PlatformCodes>>,
}

/// The identities that a reverse table holds.
pub open spec fn ids(m: Map<usize, CustomButton>) -> Map<usize, ButtonId> {
    m.map_values(|b: CustomButton| b@)
}

impl View for CustomButtonMap {
    type V = RegistryView;

    closed spec fn view(&self) -> RegistryView {
        RegistryView {
            label: self.name@,
            forward: self.forward@,
            windows: ids(self.windows@),
            linux: ids(self.linux@),
            macos: ids(self.macos@),
        }
    }
}

impl CustomButtonMap {
    /// The table and the entry list agree, and on each platform the reverse
    /// table holds exactly the recorded codes.
    pub closed spec fn wf(&self) -> bool {
        let v = self@;
        &&& forall|i: int, j: int|
            0 <= i < j < self.entries@.len() ==> self.entries@[i].0@ != self.entries@[j].0@
        &&& forall|id: ButtonId|
            v.forward.contains_key(id) <==> exists|i: int|
                0 <= i < self.entries@.len() && self.entries@[i].0@ == id
        &&& forall|i: int|
            0 <= i < self.entries@.len() ==> v.forward[self.entries@[i].0@]
                == self.entries@[i].1
        &&& forall|p: Platform, c: usize|
            v.reverse(p).contains_key(c) ==> v.forward.contains_key(v.reverse(p)[c]) && code_at(
                v.forward[v.reverse(p)[c]],
                p,
            ) == Some(c)
        &&& forall|p: Platform, id: ButtonId|
            v.forward.contains_key(id) && code_at(v.forward[id], p) is Some ==> v.reverse(
                p,
            ).contains_key(code_at(v.forward[id], p)->Some_0) && v.reverse(p)[code_at(
                v.forward[id],
                p,
            )->Some_0] == id
    }

    /// Create a new empty custom button map.
    pub fn new(name: &str) -> (r: Self)
        ensures
            r.wf(),
            r@ == (RegistryView {
                label: name@,
                forward: Map::empty(),
                windows: Map::empty(),
                linux: Map::empty(),
                macos: Map::empty(),
            }),
    {
        let r = CustomButtonMap {
            name: string_of(&to_chars(name)),
            entries: Vec::new(),
            windows: HashMap::new(),
            linux: HashMap::new(),
            macos: HashMap::new(),
            forward: Ghost(Map::empty()),
        };
        assert(ids(r.windows@) =~= Map::empty());
        assert(ids(r.linux@) =~= Map::empty());
        assert(ids(r.macos@) =~= Map::empty());
        r
    }

    /// Get the label of this custom map.
    pub fn name(&self) -> (r: &str)
        ensures
            r@ == self@.label,
    {
        self.name.as_str()
    }

    /// The reverse table of `platform`.
    fn table(&self, platform: Platform) -> (r: &HashMap<usize, CustomButton>)
        ensures
            ids(r@) == self@.reverse(platform),
    {
        match platform {
            Platform::Windows => &self.windows,
            Platform::Linux => &self.linux,
            Platform::MacOS => &self.macos,
        }
    }

    /// Position of the entry with the identity of `button`, if any.
    fn position(&self, button: &CustomButton) -> (r: Option<usize>)
        requires
            self.wf(),
        ensures
            match r {
                Some(i) => i < self.entries@.len() && self.entries@[i as int].0@ == button@,
                None => !self@.forward.contains_key(button@),
            },
    {
        let mut i: usize = 0;
        while i < self.entries.len()
            invariant
                i <= self.entries@.len(),
                forall|j: int| 0 <= j < i ==> self.entries@[j].0@ != button@,
            decreases self.entries@.len() - i,
        {
            if self.entries[i].0.same_as(button) {
                return Some(i);
            }
            i = i + 1;
        }
        None
    }

    /// Look up what `code` stands for on `platform`: this map's own entries
    /// first, then the standard buttons.
    pub fn from_code(&self, code: usize, platform: Platform) -> (r: Option<CustomButton>)
        ensures
            id_of(r) == self@.lookup(code, platform),
    {
        let t = self.table(platform);
        match t.get(&code) {
            Some(b) => Some(b.duplicate()),
            None => CustomButton::from_code(code, platform),
        }
    }

    /// Get the platform-specific code for a button: a standard button's own
    /// code, or the code recorded for a custom entry.
    pub fn get_code_for_button(&self, button: &CustomButton, platform: Platform) -> (r: Option<
        usize,
    >)
        requires
            self.wf(),
        ensures
            r == self@.code_for(button@, platform),
    {
        match button {
            CustomButton::Standard(b) => Some(b.to_code(platform)),
            CustomButton::Custom(_) => match self.position(button) {
                Some(i) => {
                    let codes = self.entries[i].1;
                    match platform {
                        Platform::Windows => codes.0,
                        Platform::Linux => codes.1,
                        Platform::MacOS => codes.2,
                    }
                },
                None => None,
            },
        }
    }

    /// Add a button with optional codes for Windows, Linux and macOS.
    ///
    /// Fails with `DuplicateCustomButton`, leaving the map as it was, when the
    /// button is already present or one of the codes is already taken on its
    /// platform.
    pub fn add_button(
        &mut self,
        button: CustomButton,
        windows_code: Option<usize>,
        linux_code: Option<usize>,
        macos_code: Option<usize>,
    ) -> (r: Result<(), MouseParseError>)
        requires
            old(self).wf(),
        ensures
            final(self).wf(),
            match r {
                Ok(_) => !old(self)@.clashes(button@, (windows_code, linux_code, macos_code))
                    && final(self)@ == old(self)@.with_entry(
                    button@,
                    (windows_code, linux_code, macos_code),
                ),
                Err(e) => old(self)@.clashes(button@, (windows_code, linux_code, macos_code))
                    && e@ == ParseFailure::DuplicateCustomButton(button@.text()) && *final(self)
                    == *old(self),
            },
    {
        let clash = self.position(&button).is_some() || taken(&self.windows, windows_code)
            || taken(&self.linux, linux_code) || taken(&self.macos, macos_code);
        if clash {
            return Err(MouseParseError::DuplicateCustomButton(button.to_text()));
        }
        let codes: PlatformCodes = (windows_code, linux_code, macos_code);
        let ghost id = button@;
        let ghost before = self@;
        if let Some(c) = windows_code {
            self.windows.insert(c, button.duplicate());
        }
        if let Some(c) = linux_code {
            self.linux.insert(c, button.duplicate());
        }
        if let Some(c) = macos_code {
            self.macos.insert(c, button.duplicate());
        }
        self.entries.push((button, codes));
        self.forward = Ghost(self.forward@.insert(id, codes));
        proof {
            assert(self@.windows =~= add_code(before.windows, codes.0, id));
            assert(self@.linux =~= add_code(before.linux, codes.1, id));
            assert(self@.macos =~= add_code(before.macos, codes.2, id));
            let n = self.entries@.len() - 1;
            assert(self.entries@[n].0@ == id);
            assert forall|i: int| 0 <= i < n implies self.entries@[i] == old(self).entries@[i] by {}
            assert forall|i: int| 0 <= i < n implies self.entries@[i].0@ != id by {
                assert(before.forward.contains_key(self.entries@[i].0@));
            }
            assert forall|id2: ButtonId| self@.forward.contains_key(id2) <==> exists|i: int|
                0 <= i < self.entries@.len() && self.entries@[i].0@ == id2 by {
                if before.forward.contains_key(id2) {
                    let i = choose|i: int|
                        0 <= i < old(self).entries@.len() && old(self).entries@[i].0@ == id2;
                    assert(self.entries@[i].0@ == id2);
                }
                if id2 == id {
                    assert(self.entries@[n].0@ == id2);
                }
            }
            assert forall|p: Platform, c: usize| self@.reverse(p).contains_key(c) implies
                self@.forward.contains_key(self@.reverse(p)[c]) && code_at(
                self@.forward[self@.reverse(p)[c]],
                p,
            ) == Some(c) by {
                if before.reverse(p).contains_key(c) && code_at(codes, p) != Some(c) {
                    assert(before.forward.contains_key(before.reverse(p)[c]));
                }
            }
            assert forall|p: Platform, id2: ButtonId|
                self@.forward.contains_key(id2) && code_at(self@.forward[id2], p) is Some implies
                self@.reverse(p).contains_key(code_at(self@.forward[id2], p)->Some_0)
                && self@.reverse(p)[code_at(self@.forward[id2], p)->Some_0] == id2 by {
                if id2 != id {
                    let c = code_at(before.forward[id2], p)->Some_0;
                    assert(before.reverse(p).contains_key(c));
                    assert(!code_taken(before.reverse(p), code_at(codes, p)));
                }
            }
        }
        Ok(())
    }
}

/// Whether a given code is already in a reverse table.
fn taken(t: &HashMap<usize, CustomButton>, code: Option<usize>) -> (r: bool)
    ensures
        r == code_taken(ids(t@), code),
{
    match code {
        Some(c) => t.contains_key(&c),
        None => false,
    }
}

/// A code that no entry of the registry claims on a platform resolves to the
/// standard button that owns it.
pub proof fn lemma_registry_fallback(m: CustomButtonMap, b: Button, p: Platform)
    requires
        !m@.reverse(p).contains_key(standard_code(b, p)),
    ensures
        m@.lookup(standard_code(b, p), p) == Some(ButtonId::Standard(b)),
{
}

} // verus!
