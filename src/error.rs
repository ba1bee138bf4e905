//! The closed set of failures that parsing and registry operations report.
use vstd::prelude::*;

verus! {

/// Error type for mouse code parsing and mapping operations.
#[derive(Debug, Clone, PartialEq, Eq)]
pub enum MouseParseError {
    /// A button name, alias or event text was not recognized.
    UnknownButton(String),
    /// A platform name was not recognized.
    UnknownPlatform,
    /// An entry clashed with a registry entry, by identity or by code.
    DuplicateCustomButton(String),
    /// A code that has no button on the platform in question.
    InvalidButtonCode(usize),
    /// The input text was empty.
    EmptyInput,
}

/// The mathematical value of a [`MouseParseError`]: texts as character sequences.
pub enum ParseFailure {
    /// See [`MouseParseError::UnknownButton`].
    UnknownButton(Seq<char>),
    /// See [`MouseParseError::UnknownPlatform`].
    UnknownPlatform,
    /// See [`MouseParseError::DuplicateCustomButton`].
    DuplicateCustomButton(Seq<char>),
    /// See [`MouseParseError::InvalidButtonCode`].
    InvalidButtonCode(usize),
    /// See [`MouseParseError::EmptyInput`].
    EmptyInput,
}

impl View for MouseParseError {
    type V = ParseFailure;

    open spec fn view(&self) -> ParseFailure {
        match self {
            MouseParseError::UnknownButton(s) => ParseFailure::UnknownButton(s@),
            MouseParseError::UnknownPlatform => ParseFailure::UnknownPlatform,
            MouseParseError::DuplicateCustomButton(s) => ParseFailure::DuplicateCustomButton(s@),
            MouseParseError::InvalidButtonCode(c) => ParseFailure::InvalidButtonCode(*c),
            MouseParseError::EmptyInput => ParseFailure::EmptyInput,
        }
    }
}

/// A result with its error replaced by the error's value.
pub open spec fn outcome<T>(r: Result<T, MouseParseError>) -> Result<T, ParseFailure> {
    match r {
        Ok(v) => Ok(v),
        Err(e) => Err(e@),
    }
}

} // verus!
