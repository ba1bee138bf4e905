//! The closed set of supported host platforms.
use vstd::prelude::*;

use crate::error::{MouseParseError, ParseFailure};
use crate::mapping::standard::{standard_button, standard_code};
use crate::text::{ascii_lower, chars_eq_str, lower_chars, to_chars};
use crate::types::{Button, CodeMapper};

verus! {

/// Supported operating systems.
#[derive(Debug, Clone, Copy, PartialEq, Eq, Hash, Structural)]
pub enum Platform {
    /// Microsoft Windows
    Windows,
    /// Linux (X11 and Wayland)
    Linux,
    /// Apple macOS
    MacOS,
}

/// The platform that a lower-case name stands for.
pub open spec fn platform_named(l: Seq<char>) -> Option<Platform> {
    if l == "windows"@ {
        Some(Platform::Windows)
    } else if l == "linux"@ {
        Some(Platform::Linux)
    } else if l == "macos"@ || l == "osx"@ {
        Some(Platform::MacOS)
    } else {
        None
    }
}

/// The platform that a compilation target's operating-system name stands for.
pub open spec fn platform_of_target(os: Seq<char>) -> Option<Platform> {
    if os == "windows"@ {
        Some(Platform::Windows)
    } else if os == "linux"@ {
        Some(Platform::Linux)
    } else if os == "macos"@ {
        Some(Platform::MacOS)
    } else {
        None
    }
}

impl Platform {
    /// Display form of this platform.
    pub open spec fn name_spec(self) -> Seq<char> {
        match self {
            Platform::Windows => "Windows"@,
            Platform::Linux => "Linux"@,
            Platform::MacOS => "macOS"@,
        }
    }

    /// Display form: `Windows`, `Linux` or `macOS`.
    pub fn as_str(&self) -> (r: &'static str)
        ensures
            r@ == self.name_spec(),
    {
        match self {
            Platform::Windows => "Windows",
            Platform::Linux => "Linux",
            Platform::MacOS => "macOS",
        }
    }

    /// Parses a platform name, ignoring ASCII case: `windows`, `linux`, `macos`
    /// or `osx`.
    pub fn from_name(s: &str) -> (r: Result<Platform, MouseParseError>)
        ensures
            match platform_named(ascii_lower(s@)) {
                Some(p) => r == Ok::<Platform, MouseParseError>(p),
                None => r matches Err(e) && e@ == ParseFailure::UnknownPlatform,
            },
    {
        let l = lower_chars(&to_chars(s));
        if chars_eq_str(&l, "windows") {
            Ok(Platform::Windows)
        } else if chars_eq_str(&l, "linux") {
            Ok(Platform::Linux)
        } else if chars_eq_str(&l, "macos") || chars_eq_str(&l, "osx") {
            Ok(Platform::MacOS)
        } else {
            Err(MouseParseError::UnknownPlatform)
        }
    }

    /// The platform of a compilation target, given the target's
    /// operating-system name (`windows`, `linux` or `macos`); `None` for any
    /// other target.
    pub fn for_target_os(os: &str) -> (r: Option<Platform>)
        ensures
            r == platform_of_target(os@),
    {
        let v = to_chars(os);
        if chars_eq_str(&v, "windows") {
            Some(Platform::Windows)
        } else if chars_eq_str(&v, "linux") {
            Some(Platform::Linux)
        } else if chars_eq_str(&v, "macos") {
            Some(Platform::MacOS)
        } else {
            None
        }
    }
}

impl Platform {
    /// The code of `button` on this platform.
    pub fn button_code(&self, button: Button) -> (r: usize)
        ensures
            r == standard_code(button, *self),
    {
        button.to_code(*self)
    }

    /// The button that `code` stands for on this platform, if any.
    pub fn button_from_code(&self, code: usize) -> (r: Option<Button>)
        ensures
            r == standard_button(code, *self),
    {
        Button::from_code(code, *self)
    }

    /// Whether `code` is the code of `button` on this platform.
    pub fn code_matches_button(&self, code: usize, button: Button) -> (r: bool)
        ensures
            r == (standard_code(button, *self) == code),
    {
        button.to_code(*self) == code
    }
}

impl std::str::FromStr for Platform {
    type Err = MouseParseError;

    fn from_str(s: &str) -> Result<Platform, MouseParseError> {
        Platform::from_name(s)
    }
}

} // verus!
