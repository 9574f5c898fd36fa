//! Operation Conditions Register (OCR), carried by the R3 response.
use crate::bits::{
    bit_field, bit_length, bit_set, extract_word, lemma_bit_length_bound, lemma_bit_of_field,
    lemma_trailing_zeros_at, lemma_trailing_zeros_is_set, trailing_zeros,
};
use vstd::arithmetic::power2::{lemma2_to64, pow2};
use vstd::prelude::*;

verus! {

/// The lowest voltage band of the OCR window, in mV.
pub const WINDOW_BASE_MV: u16 = 2700;

/// The width of each voltage band of the OCR window, in mV.
pub const WINDOW_STEP_MV: u16 = 100;

/// Operation Conditions Register (OCR)
///
/// R3
#[derive(Clone, Copy, Debug, Default)]
pub struct OCR(pub u32);

impl View for OCR {
    type V = nat;

    open spec fn view(&self) -> nat {
        self.0 as nat
    }
}

/// The nine voltage bands `[23:15]`, one bit per 100 mV from 2700 mV.
pub open spec fn voltage_bands(ocr: nat) -> nat {
    bit_field(ocr, 23, 15)
}

/// The supported window `(min, max)` in mV: `min` is the lower edge of the
/// lowest band that is set, `max` the upper edge of the highest; no window
/// when no band is set.
pub open spec fn voltage_window_of(ocr: nat) -> Option<(u16, u16)> {
    let bands = voltage_bands(ocr);
    if bands == 0 {
        None
    } else {
        Some(
            (
                (WINDOW_BASE_MV + WINDOW_STEP_MV * trailing_zeros(bands)) as u16,
                (WINDOW_BASE_MV + WINDOW_STEP_MV * bit_length(bands)) as u16,
            ),
        )
    }
}

impl From<u32> for OCR {
    fn from(word: u32) -> Self {
        OCR(word)
    }
}

impl vstd::std_specs::convert::FromSpecImpl<u32> for OCR {
    open spec fn obeys_from_spec() -> bool {
        true
    }

    open spec fn from_spec(word: u32) -> OCR {
        OCR(word)
    }
}

impl OCR {
    /// VDD voltage window
    pub fn voltage_window_mv(&self) -> (r: Option<(u16, u16)>)
        ensures
            r == voltage_window_of(self@),
    {
        let mut window: u32 = extract_word(self.0, 23, 15);
        let ghost bands = window as nat;
        proof {
            lemma2_to64();
            lemma_bit_length_bound(bands, 9);
        }
        let mut min: u16 = WINDOW_BASE_MV;
        while window & 1 == 0 && window != 0
            invariant
                bands == voltage_bands(self@),
                bit_length(bands) <= 9,
                window == 0 <==> bands == 0,
                min + 100 * trailing_zeros(window as nat) == 2700 + 100 * trailing_zeros(bands),
                min + 100 * bit_length(window as nat) == 2700 + 100 * bit_length(bands),
            decreases window,
        {
            proof {
                lemma_low_bit(window);
                lemma_halve(window);
            }
            min += WINDOW_STEP_MV;
            window >>= 1;
        }
        proof {
            lemma_low_bit(window);
        }
        let mut max: u16 = min;
        while window != 0
            invariant
                bit_length(bands) <= 9,
                max + 100 * bit_length(window as nat) == 2700 + 100 * bit_length(bands),
            decreases window,
        {
            proof {
                lemma_halve(window);
            }
            max += WINDOW_STEP_MV;
            window >>= 1;
        }
        proof {
            if bands != 0 {
                lemma_trailing_zeros_is_set(bands);
            }
        }
        if max == min {
            None
        } else {
            Some((min, max))
        }
    }

    /// Switching to 1.8V Accepted (S18A). Only UHS-I cards support this bit
    pub fn v18_allowed(&self) -> (r: bool)
        ensures
            r == bit_set(self@, 24),
    {
        extract_word(self.0, 24, 24) == 1
    }

    /// Over 2TB support Status. Only SDUC card support this bit
    pub fn over_2tb(&self) -> (r: bool)
        ensures
            r == bit_set(self@, 27),
    {
        extract_word(self.0, 27, 27) == 1
    }

    /// Indicates whether the card supports UHS-II Interface
    pub fn uhs2_card_status(&self) -> (r: bool)
        ensures
            r == bit_set(self@, 29),
    {
        extract_word(self.0, 29, 29) == 1
    }

    /// Card Capacity Status (CCS). True for SDHC/SDXC/SDUC, false for SDSC
    pub fn high_capacity(&self) -> (r: bool)
        ensures
            r == bit_set(self@, 30),
    {
        extract_word(self.0, 30, 30) == 1
    }

    /// Card power up status bit (busy). The bit is active low: the card is
    /// busy while bit 31 is clear.
    pub fn is_busy(&self) -> (r: bool)
        ensures
            r == !bit_set(self@, 31),
    {
        proof {
            lemma2_to64();
        }
        extract_word(self.0, 31, 31) == 0
    }
}

/// Where bit `k` of `[23:15]` is the lowest band that is set, the window
/// starts 100 mV above 2700 mV for each band below it that is clear.
pub proof fn lemma_window_min_from_lowest_band(ocr: u32, k: nat)
    requires
        15 <= k <= 23,
        bit_set(ocr as nat, k),
        forall|i: nat| 15 <= i < k ==> !#[trigger] bit_set(ocr as nat, i),
    ensures
        voltage_window_of(ocr as nat) matches Some((min, _)) && min == 2700 + 100 * (k - 15),
{
    let bands = voltage_bands(ocr as nat);
    let j = (k - 15) as nat;
    lemma_bit_of_field(ocr as nat, 23, 15, j);
    assert forall|i: nat| i < j implies !#[trigger] bit_set(bands, i) by {
        lemma_bit_of_field(ocr as nat, 23, 15, i);
        assert(!bit_set(ocr as nat, 15 + i));
    }
    lemma_trailing_zeros_at(bands, j);
    lemma_window_bounds(ocr as nat);
    if bands == 0 {
        lemma2_to64();
        assert(0nat / pow2(j) == 0);
    }
}

/// There is no window exactly when none of the bands `[23:15]` is set.
pub proof fn lemma_window_none_iff_no_band(ocr: u32)
    ensures
        voltage_window_of(ocr as nat) is None <==> forall|i: nat|
            15 <= i <= 23 ==> !#[trigger] bit_set(ocr as nat, i),
{
    let bands = voltage_bands(ocr as nat);
    if bands == 0 {
        assert forall|i: nat| 15 <= i <= 23 implies !#[trigger] bit_set(ocr as nat, i) by {
            lemma_bit_of_field(ocr as nat, 23, 15, (i - 15) as nat);
            lemma2_to64();
            vstd::arithmetic::power2::lemma_pow2_pos((i - 15) as nat);
            assert(0nat / pow2((i - 15) as nat) == 0);
        }
    } else {
        lemma_trailing_zeros_is_set(bands);
        lemma_window_bounds(ocr as nat);
        let t = trailing_zeros(bands);
        lemma_bit_of_field(ocr as nat, 23, 15, t);
        assert(bit_set(ocr as nat, 15 + t));
    }
}

proof fn lemma_low_bit(x: u32)
    by (bit_vector)
    ensures
        x & 1 == x % 2,
{
}

/// One step of the band scan: shifting right by one halves the remaining
/// bands and drops one from both counts.
proof fn lemma_halve(x: u32)
    requires
        x != 0,
    ensures
        x >> 1 == x / 2,
        bit_length(x as nat) == 1 + bit_length((x / 2) as nat),
        x % 2 == 0 ==> trailing_zeros(x as nat) == 1 + trailing_zeros((x / 2) as nat),
        x % 2 == 0 ==> x / 2 != 0,
{
    lemma2_to64();
    vstd::bits::lemma_u32_shr_is_div(x, 1);
}

/// The window edges fit the nine bands.
proof fn lemma_window_bounds(ocr: nat)
    ensures
        bit_length(voltage_bands(ocr)) <= 9,
        voltage_bands(ocr) != 0 ==> trailing_zeros(voltage_bands(ocr)) < bit_length(
            voltage_bands(ocr),
        ),
{
    lemma2_to64();
    vstd::arithmetic::div_mod::lemma_mod_pos_bound((ocr / pow2(15)) as int, pow2(9) as int);
    lemma_bit_length_bound(voltage_bands(ocr), 9);
    if voltage_bands(ocr) != 0 {
        lemma_trailing_zeros_is_set(voltage_bands(ocr));
    }
}

} // verus!
