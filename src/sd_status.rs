//! The 512-bit SD Status register, read with ACMD13.
use crate::bits::{bit_field, bit_set, extract, words_value};
use vstd::prelude::*;

verus! {

/// The number of data lines in use on the SDMMC bus
#[derive(Copy, Clone, Debug, Eq, PartialEq, Structural)]
#[allow(missing_docs)]
pub enum BusWidth {
    Unknown,
    One,
    Four,
    Eight,
}

/// The bus width coded by `DAT_BUS_WIDTH`.
pub open spec fn bus_width_of(code: nat) -> BusWidth {
    if code == 0 {
        BusWidth::One
    } else if code == 2 {
        BusWidth::Four
    } else {
        BusWidth::Unknown
    }
}

/// SD Status, as sixteen little-endian words
#[derive(Clone, Copy, Debug, Default)]
pub struct SDStatus {
    pub words: [u32; 16],
}

impl View for SDStatus {
    type V = nat;

    open spec fn view(&self) -> nat {
        words_value(self.words@)
    }
}

/// From little endian words
impl From<[u32; 16]> for SDStatus {
    fn from(words: [u32; 16]) -> Self {
        SDStatus { words }
    }
}

impl vstd::std_specs::convert::FromSpecImpl<[u32; 16]> for SDStatus {
    open spec fn obeys_from_spec() -> bool {
        true
    }

    open spec fn from_spec(words: [u32; 16]) -> SDStatus {
        SDStatus { words }
    }
}

impl SDStatus {
    /// Current data bus width
    pub fn bus_width(&self) -> (r: BusWidth)
        ensures
            r == bus_width_of(bit_field(self@, 511, 510)),
    {
        match extract(self.words.as_slice(), 511, 510) {
            0 => BusWidth::One,
            2 => BusWidth::Four,
            _ => BusWidth::Unknown,
        }
    }

    /// Is the card currently in the secured mode
    pub fn secure_mode(&self) -> (r: bool)
        ensures
            r == bit_set(self@, 509),
    {
        extract(self.words.as_slice(), 509, 509) == 1
    }

    /// SD Memory Card type (ROM, OTP, etc)
    pub fn sd_memory_card_type(&self) -> (r: u16)
        ensures
            r == bit_field(self@, 495, 480),
    {
        extract(self.words.as_slice(), 495, 480) as u16
    }

    /// SDHC / SDXC: Capacity of Protected Area in bytes
    pub fn protected_area_size(&self) -> (r: u32)
        ensures
            r == bit_field(self@, 479, 448),
    {
        extract(self.words.as_slice(), 479, 448)
    }

    /// Speed Class
    pub fn speed_class(&self) -> (r: u8)
        ensures
            r == bit_field(self@, 447, 440),
    {
        extract(self.words.as_slice(), 447, 440) as u8
    }

    /// "Performance Move" indicator in 1 MB/s units
    pub fn move_performance(&self) -> (r: u8)
        ensures
            r == bit_field(self@, 439, 432),
    {
        extract(self.words.as_slice(), 439, 432) as u8
    }

    /// Allocation Unit (AU) size. Lookup in PLSS v7_10 Table 4-47
    pub fn allocation_unit_size(&self) -> (r: u8)
        ensures
            r == bit_field(self@, 431, 428),
    {
        extract(self.words.as_slice(), 431, 428) as u8
    }

    /// Indicates N_Erase, in units of AU: the 16 bits `[423:408]`, which
    /// straddle two words
    pub fn erase_size(&self) -> (r: u16)
        ensures
            r == bit_field(self@, 423, 408),
    {
        extract(self.words.as_slice(), 423, 408) as u16
    }

    /// Indicates T_Erase / Erase Timeout (s)
    pub fn erase_timeout(&self) -> (r: u8)
        ensures
            r == bit_field(self@, 407, 402),
    {
        extract(self.words.as_slice(), 407, 402) as u8
    }

    /// Video speed class
    pub fn video_speed_class(&self) -> (r: u8)
        ensures
            r == bit_field(self@, 359, 352),
    {
        extract(self.words.as_slice(), 359, 352) as u8
    }

    /// Application Performance Class
    pub fn app_perf_class(&self) -> (r: u8)
        ensures
            r == bit_field(self@, 307, 304),
    {
        extract(self.words.as_slice(), 307, 304) as u8
    }

    /// Discard Support
    pub fn discard_support(&self) -> (r: bool)
        ensures
            r == bit_set(self@, 281),
    {
        extract(self.words.as_slice(), 281, 281) == 1
    }
}

} // verus!
