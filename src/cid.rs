//! Card Identification register (CID), carried by the R2 response.
use crate::bits::{bit_field, extract, u128_words, words_of_u128, words_value};
use vstd::prelude::*;
use vstd::utf8::{decode_utf8, valid_utf8};

verus! {

/// Byte `i` of a 128-bit register, counting from the most significant byte.
pub open spec fn register_byte(value: nat, i: nat) -> u8 {
    bit_field(value, (127 - 8 * i) as nat, (120 - 8 * i) as nat) as u8
}

/// The bytes `first .. first + count` of a 128-bit register.
pub open spec fn register_bytes(value: nat, first: nat, count: nat) -> Seq<u8> {
    Seq::new(count, |i: int| register_byte(value, first + i as nat))
}

/// The text that a register's text field shows: its bytes decoded as UTF-8,
/// or the sentinel `<ERR>` when they are not valid UTF-8.
pub open spec fn text_of(bytes: Seq<u8>) -> Seq<char> {
    if valid_utf8(bytes) {
        decode_utf8(bytes)
    } else {
        seq!['<', 'E', 'R', 'R', '>']
    }
}

/// Relies on `core::str::from_utf8`: it accepts exactly the byte sequences
/// that are valid UTF-8, and then yields the characters they encode.
#[verifier::external_body]
fn utf8_text(bytes: &[u8]) -> (r: Option<String>)
    ensures
        r is Some <==> valid_utf8(bytes@),
        r matches Some(s) ==> s@ == decode_utf8(bytes@),
{
    match core::str::from_utf8(bytes) {
        Ok(s) => Some(String::from(s)),
        Err(_) => None,
    }
}

/// The text field held in bytes `first .. first + count` of a 128-bit
/// register; a field that is not valid UTF-8 reads as the sentinel `<ERR>`.
pub(crate) fn text_field(words: &[u32; 4], first: usize, count: usize) -> (r: String)
    requires
        first + count <= 16,
    ensures
        r@ == text_of(register_bytes(words_value(words@), first as nat, count as nat)),
{
    let ghost value = words_value(words@);
    let mut bytes: Vec<u8> = Vec::new();
    let mut i: usize = 0;
    while i < count
        invariant
            i <= count,
            first + count <= 16,
            value == words_value(words@),
            words@.len() == 4,
            bytes@ =~= register_bytes(value, first as nat, i as nat),
        decreases count - i,
    {
        let hi: usize = 127 - 8 * (first + i);
        let byte = extract(words.as_slice(), hi, hi - 7) as u8;
        bytes.push(byte);
        i += 1;
    }
    match utf8_text(bytes.as_slice()) {
        Some(s) => s,
        None => {
            let sentinel = "<ERR>";
            proof {
                reveal_strlit("<ERR>");
            }
            sentinel.to_owned()
        },
    }
}

/// Card Identification Register (CID), as four little-endian words.
///
/// R2
#[derive(Clone, Copy, Debug, Default)]
pub struct CID {
    pub words: [u32; 4],
}

impl View for CID {
    type V = nat;

    open spec fn view(&self) -> nat {
        words_value(self.words@)
    }
}

/// From little endian words
impl From<[u32; 4]> for CID {
    fn from(words: [u32; 4]) -> Self {
        CID { words }
    }
}

impl vstd::std_specs::convert::FromSpecImpl<[u32; 4]> for CID {
    open spec fn obeys_from_spec() -> bool {
        true
    }

    open spec fn from_spec(words: [u32; 4]) -> CID {
        CID { words }
    }
}

impl From<u128> for CID {
    fn from(inner: u128) -> Self {
        let words = words_of_u128(inner);
        proof {
            let c = CID { words };
            assert(c.words@ == u128_words(inner));
            assert(exists|c: CID| c.words@ == u128_words(inner));
            let d = choose|c: CID| c.words@ == u128_words(inner);
            assert(d.words =~= words);
        }
        CID { words }
    }
}

/// The register whose words are those of `inner`.
impl vstd::std_specs::convert::FromSpecImpl<u128> for CID {
    open spec fn obeys_from_spec() -> bool {
        true
    }

    open spec fn from_spec(inner: u128) -> CID {
        choose|c: CID| c.words@ == u128_words(inner)
    }
}

impl CID {
    /// Manufacturer ID
    pub fn manufacturer_id(&self) -> (r: u8)
        ensures
            r == bit_field(self@, 127, 120),
    {
        extract(self.words.as_slice(), 127, 120) as u8
    }

    /// OEM/Application ID: two characters, bits `[119:104]`
    pub fn oem_id(&self) -> (r: String)
        ensures
            r@ == text_of(register_bytes(self@, 1, 2)),
    {
        text_field(&self.words, 1, 2)
    }

    /// Product name: five characters, bits `[103:64]`
    pub fn product_name(&self) -> (r: String)
        ensures
            r@ == text_of(register_bytes(self@, 3, 5)),
    {
        text_field(&self.words, 3, 5)
    }

    /// Product revision
    pub fn product_revision(&self) -> (r: u8)
        ensures
            r == bit_field(self@, 63, 56),
    {
        extract(self.words.as_slice(), 63, 56) as u8
    }

    /// Product serial number
    pub fn serial(&self) -> (r: u32)
        ensures
            r == bit_field(self@, 55, 24),
    {
        extract(self.words.as_slice(), 55, 24)
    }

    /// Manufacturing date as (month, year): the month is bits `[11:8]`,
    /// the year is bits `[19:12]` counted from 2000.
    pub fn manufacturing_date(&self) -> (r: (u8, u16))
        ensures
            r.0 == bit_field(self@, 11, 8),
            r.1 == bit_field(self@, 19, 12) + 2000,
    {
        let month = extract(self.words.as_slice(), 11, 8) as u8;
        let year = extract(self.words.as_slice(), 19, 12) as u16 + 2000;
        (month, year)
    }

    /// The CRC7 checksum field, as carried; it is not checked here.
    pub fn crc7(&self) -> (r: u8)
        ensures
            r == bit_field(self@, 7, 1),
    {
        extract(self.words.as_slice(), 7, 1) as u8
    }
}

} // verus!
