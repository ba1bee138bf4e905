//! Conversion between a symbol and its platform-specific integer code.
use vstd::prelude::*;

use super::Platform;

verus! {

/// Types that can be converted to and from platform-specific mouse codes.
pub trait CodeMapper: Sized {
    /// The code of this value on `platform`.
    spec fn code_spec(&self, platform: Platform) -> usize;

    /// The value that `code` stands for on `platform`, if any.
    spec fn decode_spec(code: usize, platform: Platform) -> Option<Self>;

    /// Convert the value to a platform-specific code.
    fn to_code(&self, platform: Platform) -> (r: usize)
        ensures
            r == self.code_spec(platform),
    ;

    /// Find the value that a platform-specific code stands for.
    fn from_code(code: usize, platform: Platform) -> (r: Option<Self>)
        ensures
            r == Self::decode_spec(code, platform),
    ;
}

} // verus!
