//! Card Specific Data register (CSD), carried by the R2 response.
//!
//! Bits `[127:126]` select the layout of the rest of the register. The
//! capacity fields are read by the formulas of that layout only; a layout
//! that this crate does not know is reported as an error.
use crate::bits::{bit_field, bit_set, extract, u128_words, words_of_u128, words_value};
use vstd::arithmetic::power2::{lemma2_to64, lemma_pow2_pos, lemma_pow2_strictly_increases, pow2};
use vstd::prelude::*;

verus! {

/// Types of SD Card
#[derive(Debug, Copy, Clone, PartialEq, Eq, Structural)]
#[non_exhaustive]
pub enum CardCapacity {
    /// Standard Capacity (< 2Gb)
    SDSC,
    /// High capacity (< 32Gb)
    SDHC,
}

impl Default for CardCapacity {
    fn default() -> (r: Self)
        ensures
            r == CardCapacity::SDSC,
    {
        CardCapacity::SDSC
    }
}

/// The CSD layouts that this crate decodes.
#[derive(Debug, Copy, Clone, PartialEq, Eq, Structural)]
pub enum CsdStructure {
    /// CSD Version 1.0: standard capacity cards
    V1,
    /// CSD Version 2.0: high and extended capacity cards
    V2,
}

/// Why a register could not be decoded.
#[derive(Debug, Copy, Clone, PartialEq, Eq, Structural)]
pub enum DecodeError {
    /// The structure version field holds a layout this crate does not know
    /// (the SDUC layout, or the reserved value); the field is carried.
    UnrecognizedStructureVersion(u8),
}

/// Maximum block length (`READ_BL_LEN`)
#[derive(Debug, Copy, Clone, Eq, PartialEq, Structural)]
pub enum BlockSize {
    Unknown,
    B512,
    B1024,
    B2048,
}

/// A supply current limit of the CSD
#[allow(non_camel_case_types)]
#[derive(Debug, Copy, Clone, Eq, PartialEq, Structural)]
pub enum CurrentConsumption {
    I_0mA,
    I_1mA,
    I_5mA,
    I_10mA,
    I_25mA,
    I_35mA,
    I_45mA,
    I_60mA,
    I_80mA,
    I_100mA,
    I_200mA,
}

/// The current in mA that a limit stands for.
pub open spec fn milliamps_of(c: CurrentConsumption) -> u32 {
    match c {
        CurrentConsumption::I_0mA => 0,
        CurrentConsumption::I_1mA => 1,
        CurrentConsumption::I_5mA => 5,
        CurrentConsumption::I_10mA => 10,
        CurrentConsumption::I_25mA => 25,
        CurrentConsumption::I_35mA => 35,
        CurrentConsumption::I_45mA => 45,
        CurrentConsumption::I_60mA => 60,
        CurrentConsumption::I_80mA => 80,
        CurrentConsumption::I_100mA => 100,
        CurrentConsumption::I_200mA => 200,
    }
}

/// The limit coded by a 3-bit current field at the minimum supply voltage.
pub open spec fn minimum_vdd_current_of(code: nat) -> CurrentConsumption {
    if code == 0 {
        CurrentConsumption::I_0mA
    } else if code == 1 {
        CurrentConsumption::I_1mA
    } else if code == 2 {
        CurrentConsumption::I_5mA
    } else if code == 3 {
        CurrentConsumption::I_10mA
    } else if code == 4 {
        CurrentConsumption::I_25mA
    } else if code == 5 {
        CurrentConsumption::I_35mA
    } else if code == 6 {
        CurrentConsumption::I_60mA
    } else {
        CurrentConsumption::I_100mA
    }
}

/// The limit coded by a 3-bit current field at the maximum supply voltage.
pub open spec fn maximum_vdd_current_of(code: nat) -> CurrentConsumption {
    if code == 0 {
        CurrentConsumption::I_0mA
    } else if code == 1 {
        CurrentConsumption::I_5mA
    } else if code == 2 {
        CurrentConsumption::I_10mA
    } else if code == 3 {
        CurrentConsumption::I_25mA
    } else if code == 4 {
        CurrentConsumption::I_35mA
    } else if code == 5 {
        CurrentConsumption::I_45mA
    } else if code == 6 {
        CurrentConsumption::I_80mA
    } else {
        CurrentConsumption::I_200mA
    }
}

impl CurrentConsumption {
    fn from_minimum_reg(reg: u32) -> (r: CurrentConsumption)
        ensures
            r == minimum_vdd_current_of(reg as nat),
    {
        match reg {
            0 => CurrentConsumption::I_0mA,
            1 => CurrentConsumption::I_1mA,
            2 => CurrentConsumption::I_5mA,
            3 => CurrentConsumption::I_10mA,
            4 => CurrentConsumption::I_25mA,
            5 => CurrentConsumption::I_35mA,
            6 => CurrentConsumption::I_60mA,
            _ => CurrentConsumption::I_100mA,
        }
    }

    fn from_maximum_reg(reg: u32) -> (r: CurrentConsumption)
        ensures
            r == maximum_vdd_current_of(reg as nat),
    {
        match reg {
            0 => CurrentConsumption::I_0mA,
            1 => CurrentConsumption::I_5mA,
            2 => CurrentConsumption::I_10mA,
            3 => CurrentConsumption::I_25mA,
            4 => CurrentConsumption::I_35mA,
            5 => CurrentConsumption::I_45mA,
            6 => CurrentConsumption::I_80mA,
            _ => CurrentConsumption::I_200mA,
        }
    }

    /// The current in mA
    pub fn milliamps(&self) -> (r: u32)
        ensures
            r == milliamps_of(*self),
    {
        match self {
            CurrentConsumption::I_0mA => 0,
            CurrentConsumption::I_1mA => 1,
            CurrentConsumption::I_5mA => 5,
            CurrentConsumption::I_10mA => 10,
            CurrentConsumption::I_25mA => 25,
            CurrentConsumption::I_35mA => 35,
            CurrentConsumption::I_45mA => 45,
            CurrentConsumption::I_60mA => 60,
            CurrentConsumption::I_80mA => 80,
            CurrentConsumption::I_100mA => 100,
            CurrentConsumption::I_200mA => 200,
        }
    }
}

impl From<&CurrentConsumption> for u32 {
    fn from(i: &CurrentConsumption) -> u32 {
        i.milliamps()
    }
}

impl vstd::std_specs::convert::FromSpecImpl<&CurrentConsumption> for u32 {
    open spec fn obeys_from_spec() -> bool {
        true
    }

    open spec fn from_spec(i: &CurrentConsumption) -> u32 {
        milliamps_of(*i)
    }
}

/// The structure version field `[127:126]`.
pub open spec fn csd_version_of(csd: nat) -> nat {
    bit_field(csd, 127, 126)
}

/// The layout selected by the structure version field.
pub open spec fn csd_structure_of(csd: nat) -> Result<CsdStructure, DecodeError> {
    let version = csd_version_of(csd);
    if version == 0 {
        Ok(CsdStructure::V1)
    } else if version == 1 {
        Ok(CsdStructure::V2)
    } else {
        Err(DecodeError::UnrecognizedStructureVersion(version as u8))
    }
}

/// `READ_BL_LEN` `[83:80]`: the block length is `2^READ_BL_LEN` bytes.
pub open spec fn read_bl_len_of(csd: nat) -> nat {
    bit_field(csd, 83, 80)
}

/// Version 1.0 block count: `(C_SIZE + 1) * 2^(C_SIZE_MULT + 2)`, with
/// `C_SIZE` at `[73:62]` and `C_SIZE_MULT` at `[49:47]`.
pub open spec fn v1_block_count_of(csd: nat) -> nat {
    (bit_field(csd, 73, 62) + 1) * pow2(bit_field(csd, 49, 47) + 2)
}

/// Version 2.0 block count: `(C_SIZE + 1) * 1024`, with `C_SIZE` at `[69:48]`.
pub open spec fn v2_block_count_of(csd: nat) -> nat {
    (bit_field(csd, 69, 48) + 1) * 1024
}

/// Number of blocks, by the formula of the register's layout.
pub open spec fn csd_block_count_of(csd: nat) -> Result<u64, DecodeError> {
    match csd_structure_of(csd) {
        Ok(CsdStructure::V1) => Ok(v1_block_count_of(csd) as u64),
        Ok(CsdStructure::V2) => Ok(v2_block_count_of(csd) as u64),
        Err(e) => Err(e),
    }
}

/// Capacity in bytes, by the formula of the register's layout: blocks of
/// `2^READ_BL_LEN` bytes for version 1.0, of 512 bytes for version 2.0.
pub open spec fn csd_card_size_of(csd: nat) -> Result<u64, DecodeError> {
    match csd_structure_of(csd) {
        Ok(CsdStructure::V1) => Ok((v1_block_count_of(csd) * pow2(read_bl_len_of(csd))) as u64),
        Ok(CsdStructure::V2) => Ok((v2_block_count_of(csd) * 512) as u64),
        Err(e) => Err(e),
    }
}

/// The block length that `READ_BL_LEN` names.
pub open spec fn block_size_of(read_bl_len: nat) -> BlockSize {
    if read_bl_len == 9 {
        BlockSize::B512
    } else if read_bl_len == 10 {
        BlockSize::B1024
    } else if read_bl_len == 11 {
        BlockSize::B2048
    } else {
        BlockSize::Unknown
    }
}

/// Erase granularity in blocks: one block when `ERASE_BLK_EN` (bit 46) is
/// set, else `tens * 10 + units` from the sector size sub-fields `[45:43]`
/// and `[42:39]`.
pub open spec fn erase_size_blocks_of(csd: nat) -> u32 {
    if bit_set(csd, 46) {
        1
    } else {
        (bit_field(csd, 45, 43) * 10 + bit_field(csd, 42, 39)) as u32
    }
}

/// Card Specific Data (CSD), as four little-endian words.
#[derive(Clone, Copy, Debug, Default)]
pub struct CSD {
    pub words: [u32; 4],
}

impl View for CSD {
    type V = nat;

    open spec fn view(&self) -> nat {
        words_value(self.words@)
    }
}

/// From little endian words
impl From<[u32; 4]> for CSD {
    fn from(words: [u32; 4]) -> Self {
        CSD { words }
    }
}

impl vstd::std_specs::convert::FromSpecImpl<[u32; 4]> for CSD {
    open spec fn obeys_from_spec() -> bool {
        true
    }

    open spec fn from_spec(words: [u32; 4]) -> CSD {
        CSD { words }
    }
}

impl From<u128> for CSD {
    fn from(inner: u128) -> Self {
        let words = words_of_u128(inner);
        proof {
            let c = CSD { words };
            assert(c.words@ == u128_words(inner));
            assert(exists|c: CSD| c.words@ == u128_words(inner));
            let d = choose|c: CSD| c.words@ == u128_words(inner);
            assert(d.words =~= words);
        }
        CSD { words }
    }
}

/// The register whose words are those of `inner`.
impl vstd::std_specs::convert::FromSpecImpl<u128> for CSD {
    open spec fn obeys_from_spec() -> bool {
        true
    }

    open spec fn from_spec(inner: u128) -> CSD {
        choose|c: CSD| c.words@ == u128_words(inner)
    }
}

impl CSD {
    /// CSD structure version
    pub fn version(&self) -> (r: u8)
        ensures
            r == csd_version_of(self@),
    {
        extract(self.words.as_slice(), 127, 126) as u8
    }

    /// The layout of this register, or the error for a structure version
    /// that this crate does not decode.
    pub fn structure(&self) -> (r: Result<CsdStructure, DecodeError>)
        ensures
            r == csd_structure_of(self@),
    {
        let version = self.version();
        if version == 0 {
            Ok(CsdStructure::V1)
        } else if version == 1 {
            Ok(CsdStructure::V2)
        } else {
            Err(DecodeError::UnrecognizedStructureVersion(version))
        }
    }

    /// Maximum data transfer rate per one data line
    pub fn transfer_rate(&self) -> (r: u8)
        ensures
            r == bit_field(self@, 103, 96),
    {
        extract(self.words.as_slice(), 103, 96) as u8
    }

    /// Maximum block length. In an SD Memory Card the WRITE_BL_LEN is
    /// always equal to READ_BL_LEN
    pub fn block_length(&self) -> (r: BlockSize)
        ensures
            r == block_size_of(read_bl_len_of(self@)),
    {
        match extract(self.words.as_slice(), 83, 80) {
            9 => BlockSize::B512,
            10 => BlockSize::B1024,
            11 => BlockSize::B2048,
            _ => BlockSize::Unknown,
        }
    }

    fn v1_block_count(&self) -> (r: u64)
        ensures
            r == v1_block_count_of(self@),
            r <= 0x20_0000,
    {
        let c_size = extract(self.words.as_slice(), 73, 62) as u64;
        let c_size_mult = extract(self.words.as_slice(), 49, 47) as u64;
        proof {
            lemma2_to64();
            if c_size_mult + 2 < 9 {
                lemma_pow2_strictly_increases((c_size_mult + 2) as nat, 9);
            }
            vstd::bits::lemma_u64_shl_is_mul(1, (c_size_mult + 2) as u64);
            lemma_pow2_pos((c_size_mult + 2) as nat);
        }
        let multiplier: u64 = 1u64 << (c_size_mult + 2);
        proof {
            assert((c_size + 1) * multiplier <= 0x1000 * 0x200) by (nonlinear_arith)
                requires
                    c_size + 1 <= 0x1000,
                    multiplier <= 0x200,
            ;
        }
        (c_size + 1) * multiplier
    }

    fn v2_block_count(&self) -> (r: u64)
        ensures
            r == v2_block_count_of(self@),
            r <= 0x1_0000_0000,
    {
        let c_size = extract(self.words.as_slice(), 69, 48) as u64;
        proof {
            lemma2_to64();
            vstd::arithmetic::power2::lemma_pow2_adds(22, 10);
        }
        (c_size + 1) * 1024
    }

    /// Number of blocks in the card, by the formula of its CSD layout.
    pub fn block_count(&self) -> (r: Result<u64, DecodeError>)
        ensures
            r == csd_block_count_of(self@),
    {
        match self.structure() {
            Ok(CsdStructure::V1) => Ok(self.v1_block_count()),
            Ok(CsdStructure::V2) => Ok(self.v2_block_count()),
            Err(e) => Err(e),
        }
    }

    /// Card size in bytes, by the formula of its CSD layout.
    pub fn card_size(&self) -> (r: Result<u64, DecodeError>)
        ensures
            r == csd_card_size_of(self@),
    {
        match self.structure() {
            Ok(CsdStructure::V1) => {
                let blocks = self.v1_block_count();
                let read_bl_len = extract(self.words.as_slice(), 83, 80) as u64;
                proof {
                    lemma2_to64();
                    if read_bl_len < 15 {
                        lemma_pow2_strictly_increases(read_bl_len as nat, 15);
                    }
                    vstd::bits::lemma_u64_shl_is_mul(1, read_bl_len);
                }
                let block_bytes: u64 = 1u64 << read_bl_len;
                proof {
                    assert(blocks * block_bytes <= 0x20_0000 * 0x8000) by (nonlinear_arith)
                        requires
                            blocks <= 0x20_0000,
                            block_bytes <= 0x8000,
                    ;
                }
                Ok(blocks * block_bytes)
            },
            Ok(CsdStructure::V2) => Ok(self.v2_block_count() * 512),
            Err(e) => Err(e),
        }
    }

    /// Maximum read current at the minimum VDD
    pub fn read_current_minimum_vdd(&self) -> (r: CurrentConsumption)
        ensures
            r == minimum_vdd_current_of(bit_field(self@, 61, 59)),
    {
        CurrentConsumption::from_minimum_reg(extract(self.words.as_slice(), 61, 59))
    }

    /// Maximum write current at the minimum VDD
    pub fn write_current_minimum_vdd(&self) -> (r: CurrentConsumption)
        ensures
            r == minimum_vdd_current_of(bit_field(self@, 58, 56)),
    {
        CurrentConsumption::from_minimum_reg(extract(self.words.as_slice(), 58, 56))
    }

    /// Maximum read current at the maximum VDD
    pub fn read_current_maximum_vdd(&self) -> (r: CurrentConsumption)
        ensures
            r == maximum_vdd_current_of(bit_field(self@, 55, 53)),
    {
        CurrentConsumption::from_maximum_reg(extract(self.words.as_slice(), 55, 53))
    }

    /// Maximum write current at the maximum VDD
    pub fn write_current_maximum_vdd(&self) -> (r: CurrentConsumption)
        ensures
            r == maximum_vdd_current_of(bit_field(self@, 52, 50)),
    {
        CurrentConsumption::from_maximum_reg(extract(self.words.as_slice(), 52, 50))
    }

    /// Erase size (in blocks)
    pub fn erase_size_blocks(&self) -> (r: u32)
        ensures
            r == erase_size_blocks_of(self@),
    {
        if extract(self.words.as_slice(), 46, 46) == 1 {
            1
        } else {
            let sector_size_tens = extract(self.words.as_slice(), 45, 43);
            let sector_size_units = extract(self.words.as_slice(), 42, 39);
            sector_size_tens * 10 + sector_size_units
        }
    }
}

/// Every CSD decodes to exactly one of: the version 1.0 layout, the version
/// 2.0 layout, or an unrecognized structure version. The block count and the
/// card size then come from the formulas of that one layout, and an
/// unrecognized version yields the same error from each.
pub proof fn lemma_csd_dispatch(csd: CSD)
    ensures
        csd_version_of(csd@) < 4,
        (csd_structure_of(csd@) == Ok::<CsdStructure, DecodeError>(CsdStructure::V1)) == (
        csd_version_of(csd@) == 0),
        (csd_structure_of(csd@) == Ok::<CsdStructure, DecodeError>(CsdStructure::V2)) == (
        csd_version_of(csd@) == 1),
        csd_structure_of(csd@) is Err == (csd_version_of(csd@) >= 2),
        csd_structure_of(csd@) == Ok::<CsdStructure, DecodeError>(CsdStructure::V1) ==> {
            &&& csd_block_count_of(csd@) matches Ok(n) && n == v1_block_count_of(csd@)
            &&& csd_card_size_of(csd@) matches Ok(n) && n == v1_block_count_of(csd@) * pow2(
                read_bl_len_of(csd@),
            )
        },
        csd_structure_of(csd@) == Ok::<CsdStructure, DecodeError>(CsdStructure::V2) ==> {
            &&& csd_block_count_of(csd@) matches Ok(n) && n == v2_block_count_of(csd@)
            &&& csd_card_size_of(csd@) matches Ok(n) && n == v2_block_count_of(csd@) * 512
        },
        csd_structure_of(csd@) matches Err(e) ==> {
            &&& e == DecodeError::UnrecognizedStructureVersion(csd_version_of(csd@) as u8)
            &&& csd_block_count_of(csd@) == Err::<u64, DecodeError>(e)
            &&& csd_card_size_of(csd@) == Err::<u64, DecodeError>(e)
        },
{
    let v = csd@;
    lemma2_to64();
    lemma_pow2_pos(126);
    vstd::arithmetic::div_mod::lemma_mod_pos_bound((v / pow2(126)) as int, pow2(2) as int);
    let c_size = bit_field(v, 73, 62);
    let c_size_mult = bit_field(v, 49, 47);
    let read_bl_len = bit_field(v, 83, 80);
    lemma_pow2_pos(62);
    lemma_pow2_pos(47);
    lemma_pow2_pos(80);
    lemma_pow2_pos(48);
    vstd::arithmetic::div_mod::lemma_mod_pos_bound((v / pow2(62)) as int, pow2(12) as int);
    vstd::arithmetic::div_mod::lemma_mod_pos_bound((v / pow2(47)) as int, pow2(3) as int);
    vstd::arithmetic::div_mod::lemma_mod_pos_bound((v / pow2(80)) as int, pow2(4) as int);
    vstd::arithmetic::div_mod::lemma_mod_pos_bound((v / pow2(48)) as int, pow2(22) as int);
    vstd::arithmetic::power2::lemma_pow2_adds(22, 10);
    if c_size_mult + 2 < 9 {
        lemma_pow2_strictly_increases(c_size_mult + 2, 9);
    }
    if read_bl_len < 15 {
        lemma_pow2_strictly_increases(read_bl_len, 15);
    }
    lemma_pow2_pos(c_size_mult + 2);
    lemma_pow2_pos(read_bl_len);
    let m = pow2(c_size_mult + 2);
    let b = pow2(read_bl_len);
    assert((c_size + 1) * m <= 0x1000 * 0x200) by (nonlinear_arith)
        requires
            c_size + 1 <= 0x1000,
            m <= 0x200,
    ;
    assert((c_size + 1) * m * b <= 0x1000 * 0x200 * 0x8000) by (nonlinear_arith)
        requires
            (c_size + 1) * m <= 0x1000 * 0x200,
            b <= 0x8000,
    ;
}

} // verus!
