//! SD Card Configuration Register (SCR), read with ACMD51.
use crate::bits::{bit_field, bit_set, extract, words_value};
use vstd::prelude::*;

verus! {

/// Physical Layer Specification version that a card reports.
#[non_exhaustive]
#[derive(Debug, Copy, Clone, Eq, PartialEq, Structural)]
pub enum SDSpecVersion {
    /// Version 1.0 and and 1.0.1
    V1_0,
    /// Version 1.10
    V1_10,
    /// Version 2.0
    V2,
    /// Version 3.0
    V3,
    /// Version 4.0
    V4,
    /// Version 5.0
    V5,
    /// Version 6.0
    V6,
    /// Version 7.0
    V7,
    /// Version not known by this crate
    Unknown,
}

/// The version named by the fields `SD_SPEC`, `SD_SPEC3`, `SD_SPEC4` and
/// `SD_SPECX`; a combination outside the table is `Unknown`.
pub open spec fn spec_version_of(spec: nat, spec3: nat, spec4: nat, specx: nat) -> SDSpecVersion {
    if spec == 0 && spec3 == 0 && spec4 == 0 && specx == 0 {
        SDSpecVersion::V1_0
    } else if spec == 1 && spec3 == 0 && spec4 == 0 && specx == 0 {
        SDSpecVersion::V1_10
    } else if spec == 2 && spec3 == 0 && spec4 == 0 && specx == 0 {
        SDSpecVersion::V2
    } else if spec == 2 && spec3 == 1 && spec4 == 0 && specx == 0 {
        SDSpecVersion::V3
    } else if spec == 2 && spec3 == 1 && spec4 == 1 && specx == 0 {
        SDSpecVersion::V4
    } else if spec == 2 && spec3 == 1 && specx == 1 {
        SDSpecVersion::V5
    } else if spec == 2 && spec3 == 1 && specx == 2 {
        SDSpecVersion::V6
    } else if spec == 2 && spec3 == 1 && specx == 3 {
        SDSpecVersion::V7
    } else {
        SDSpecVersion::Unknown
    }
}

/// The version that a 64-bit SCR value reports.
pub open spec fn scr_version_of(scr: nat) -> SDSpecVersion {
    spec_version_of(
        bit_field(scr, 59, 56),
        bit_field(scr, 47, 47),
        bit_field(scr, 42, 42),
        bit_field(scr, 41, 38),
    )
}

/// SD CARD Configuration Register (SCR), as two little-endian words.
#[derive(Clone, Copy, Debug, Default)]
pub struct SCR {
    pub words: [u32; 2],
}

impl View for SCR {
    type V = nat;

    open spec fn view(&self) -> nat {
        words_value(self.words@)
    }
}

/// From little endian words
impl From<[u32; 2]> for SCR {
    fn from(words: [u32; 2]) -> Self {
        SCR { words }
    }
}

impl vstd::std_specs::convert::FromSpecImpl<[u32; 2]> for SCR {
    open spec fn obeys_from_spec() -> bool {
        true
    }

    open spec fn from_spec(words: [u32; 2]) -> SCR {
        SCR { words }
    }
}

impl SCR {
    /// Physical Layer Specification Version Number
    pub fn version(&self) -> (r: SDSpecVersion)
        ensures
            r == scr_version_of(self@),
    {
        let spec = extract(self.words.as_slice(), 59, 56);
        let spec3 = extract(self.words.as_slice(), 47, 47);
        let spec4 = extract(self.words.as_slice(), 42, 42);
        let specx = extract(self.words.as_slice(), 41, 38);
        match (spec, spec3, spec4, specx) {
            (0, 0, 0, 0) => SDSpecVersion::V1_0,
            (1, 0, 0, 0) => SDSpecVersion::V1_10,
            (2, 0, 0, 0) => SDSpecVersion::V2,
            (2, 1, 0, 0) => SDSpecVersion::V3,
            (2, 1, 1, 0) => SDSpecVersion::V4,
            (2, 1, _, 1) => SDSpecVersion::V5,
            (2, 1, _, 2) => SDSpecVersion::V6,
            (2, 1, _, 3) => SDSpecVersion::V7,
            _ => SDSpecVersion::Unknown,
        }
    }

    /// Bus widths supported, one bit per width (`SD_BUS_WIDTHS`)
    pub fn bus_widths(&self) -> (r: u8)
        ensures
            r == bit_field(self@, 51, 48),
    {
        extract(self.words.as_slice(), 51, 48) as u8
    }

    /// Supports 1-bit bus width
    pub fn bus_width_one(&self) -> (r: bool)
        ensures
            r == bit_set(self@, 48),
    {
        extract(self.words.as_slice(), 48, 48) == 1
    }

    /// Supports 4-bit bus width
    pub fn bus_width_four(&self) -> (r: bool)
        ensures
            r == bit_set(self@, 50),
    {
        extract(self.words.as_slice(), 50, 50) == 1
    }
}

} // verus!
