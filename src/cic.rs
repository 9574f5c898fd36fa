//! Card Interface Condition, returned in the R7 response to CMD8.
use crate::bits::{bit_field, extract_word};
use vstd::prelude::*;

verus! {

/// Card interface condition (R7)
#[derive(Copy, Clone, Debug, Default)]
pub struct CIC(pub u32);

impl View for CIC {
    type V = nat;

    open spec fn view(&self) -> nat {
        self.0 as nat
    }
}

impl From<u32> for CIC {
    fn from(word: u32) -> Self {
        CIC(word)
    }
}

impl vstd::std_specs::convert::FromSpecImpl<u32> for CIC {
    open spec fn obeys_from_spec() -> bool {
        true
    }

    open spec fn from_spec(word: u32) -> CIC {
        CIC(word)
    }
}

impl CIC {
    /// The voltage range the card accepts
    pub fn voltage_accepted(&self) -> (r: u8)
        ensures
            r == bit_field(self@, 15, 8),
    {
        extract_word(self.0, 15, 8) as u8
    }

    /// Echo-back check pattern
    pub fn pattern(&self) -> (r: u8)
        ensures
            r == bit_field(self@, 7, 0),
    {
        extract_word(self.0, 7, 0) as u8
    }
}

} // verus!
