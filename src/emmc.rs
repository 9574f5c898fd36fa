//! eMMC-specific extensions to the core SDMMC protocol.
use crate::bits::{bit_field, bit_set, extract, extract_word, words_value};
use crate::cid::{register_bytes, text_field, text_of};
use crate::ocr::OCR;
use vstd::prelude::*;

verus! {

impl OCR {
    /// OCR \[7\]. Valid for eMMC. False for High Voltage, true for Dual voltage.
    pub fn is_dual_voltage_card(&self) -> (r: bool)
        ensures
            r == bit_set(self@, 24),
    {
        extract_word(self.0, 24, 24) == 1
    }
}

/// All possible values of the CBX field of the CID register on eMMC devices.
#[derive(Copy, Clone, Debug, Eq, PartialEq, Structural)]
pub enum DeviceType {
    RemovableDevice,
    BGA,
    POP,
    Unknown,
}

/// The device type coded by the 2-bit CBX field; `0b11` is reserved.
pub open spec fn device_type_of(cbx: nat) -> DeviceType {
    if cbx == 0 {
        DeviceType::RemovableDevice
    } else if cbx == 1 {
        DeviceType::BGA
    } else if cbx == 2 {
        DeviceType::POP
    } else {
        DeviceType::Unknown
    }
}

/// Card Identification Register of an eMMC device, as four little-endian
/// words. Its layout differs from the SD CID after the manufacturer ID.
#[derive(Clone, Copy, Debug, Default)]
pub struct CID {
    pub words: [u32; 4],
}

impl View for CID {
    type V = nat;

    open spec fn view(&self) -> nat {
        words_value(self.words@)
    }
}

/// From little endian words
impl From<[u32; 4]> for CID {
    fn from(words: [u32; 4]) -> Self {
        CID { words }
    }
}

impl vstd::std_specs::convert::FromSpecImpl<[u32; 4]> for CID {
    open spec fn obeys_from_spec() -> bool {
        true
    }

    open spec fn from_spec(words: [u32; 4]) -> CID {
        CID { words }
    }
}

impl CID {
    /// MID field, indicating the manufacturer.
    pub fn manufacturer_id(&self) -> (r: u8)
        ensures
            r == bit_field(self@, 127, 120),
    {
        extract(self.words.as_slice(), 127, 120) as u8
    }

    /// CBX field, indicating device type.
    pub fn device_type(&self) -> (r: DeviceType)
        ensures
            r == device_type_of(bit_field(self@, 113, 112)),
    {
        match extract(self.words.as_slice(), 113, 112) {
            0b00 => DeviceType::RemovableDevice,
            0b01 => DeviceType::BGA,
            0b10 => DeviceType::POP,
            _ => DeviceType::Unknown,
        }
    }

    /// OID field, indicating OEM/Application ID.
    ///
    /// The OID number is controlled, defined and allocated to an eMMC manufacturer by JEDEC.
    pub fn oem_application_id(&self) -> (r: u8)
        ensures
            r == bit_field(self@, 111, 104),
    {
        extract(self.words.as_slice(), 111, 104) as u8
    }

    /// PNM field, indicating product name: six characters, bits `[103:56]`.
    pub fn product_name(&self) -> (r: String)
        ensures
            r@ == text_of(register_bytes(self@, 3, 6)),
    {
        text_field(&self.words, 3, 6)
    }

    /// PRV field, indicating product revision.
    ///
    /// The return value is a (major, minor) version tuple.
    pub fn product_revision(&self) -> (r: (u8, u8))
        ensures
            r.0 == bit_field(self@, 55, 52),
            r.1 == bit_field(self@, 51, 48),
    {
        let major = extract(self.words.as_slice(), 55, 52) as u8;
        let minor = extract(self.words.as_slice(), 51, 48) as u8;
        (major, minor)
    }

    /// PSN field, indicating product serial number.
    pub fn serial(&self) -> (r: u32)
        ensures
            r == bit_field(self@, 47, 16),
    {
        extract(self.words.as_slice(), 47, 16)
    }

    /// MDT field, indicating manufacturing date.
    ///
    /// The return value is a (month, year) tuple where the month code has 1 = January and the year
    /// is an offset from either 1997 or 2013 depending on the value of `EXT_CSD_REV`.
    pub fn manufacturing_date(&self) -> (r: (u8, u8))
        ensures
            r.0 == bit_field(self@, 15, 12),
            r.1 == bit_field(self@, 11, 8),
    {
        let month = extract(self.words.as_slice(), 15, 12) as u8;
        let year = extract(self.words.as_slice(), 11, 8) as u8;
        (month, year)
    }
}

/// Card status of an eMMC device, as returned in the R1 response.
#[derive(Copy, Clone, Debug, Default)]
pub struct CardStatus(pub u32);

impl View for CardStatus {
    type V = nat;

    open spec fn view(&self) -> nat {
        self.0 as nat
    }
}

impl From<u32> for CardStatus {
    fn from(word: u32) -> Self {
        CardStatus(word)
    }
}

impl vstd::std_specs::convert::FromSpecImpl<u32> for CardStatus {
    open spec fn obeys_from_spec() -> bool {
        true
    }

    open spec fn from_spec(word: u32) -> CardStatus {
        CardStatus(word)
    }
}

impl CardStatus {
    /// If set, the Device did not switch to the expected mode as requested by the SWITCH command
    pub fn switch_error(&self) -> (r: bool)
        ensures
            r == bit_set(self@, 7),
    {
        extract_word(self.0, 7, 7) == 1
    }

    /// If set, one of the exception bits in field EXCEPTION_EVENTS_STATUS was set to indicate some
    /// exception has occurred. Host should check that field to discover the exception that has
    /// occurred to understand what further actions are needed in order to clear this bit.
    pub fn exception_event(&self) -> (r: bool)
        ensures
            r == bit_set(self@, 6),
    {
        extract_word(self.0, 6, 6) == 1
    }
}

} // verus!
