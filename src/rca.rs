//! Relative Card Address (RCA), published in the R6 response.
use crate::bits::{bit_field, extract_word};
use vstd::prelude::*;

verus! {

/// Relative Card Address (RCA)
///
/// R6
#[derive(Copy, Clone, Debug, Default)]
pub struct RCA(pub u32);

impl View for RCA {
    type V = nat;

    open spec fn view(&self) -> nat {
        self.0 as nat
    }
}

impl From<u32> for RCA {
    fn from(word: u32) -> Self {
        RCA(word)
    }
}

impl vstd::std_specs::convert::FromSpecImpl<u32> for RCA {
    open spec fn obeys_from_spec() -> bool {
        true
    }

    open spec fn from_spec(word: u32) -> RCA {
        RCA(word)
    }
}

/// An address that the host assigns, as eMMC hosts do: the address takes the
/// upper half of the word and the status half is clear.
impl From<u16> for RCA {
    fn from(address: u16) -> Self {
        RCA((address as u32) * 0x1_0000)
    }
}

impl vstd::std_specs::convert::FromSpecImpl<u16> for RCA {
    open spec fn obeys_from_spec() -> bool {
        true
    }

    open spec fn from_spec(address: u16) -> RCA {
        RCA((address * 0x1_0000) as u32)
    }
}

impl RCA {
    /// Address of card
    pub fn address(&self) -> (r: u16)
        ensures
            r == bit_field(self@, 31, 16),
    {
        extract_word(self.0, 31, 16) as u16
    }

    /// Status
    pub fn status(&self) -> (r: u16)
        ensures
            r == bit_field(self@, 15, 0),
    {
        extract_word(self.0, 15, 0) as u16
    }
}

} // verus!
