//! SD/MMC card registers and host-to-card commands.
//!
//! Registers are built from the little-endian word arrays that a host
//! controller collects from the bus and decoded into typed fields; commands
//! are built from typed parameters into an opcode, an argument and the shape
//! of the expected response.
pub mod bits;
pub mod cic;
pub mod cid;
pub mod cmd;
pub mod csd;
pub mod emmc;
pub mod ocr;
pub mod rca;
pub mod scr;
pub mod sd_cmd;
pub mod sd_status;

pub use cic::CIC;
pub use cid::CID;
pub use csd::{BlockSize, CardCapacity, CsdStructure, CurrentConsumption, DecodeError, CSD};
pub use ocr::OCR;
pub use rca::RCA;
pub use scr::{SDSpecVersion, SCR};
pub use sd_status::{BusWidth, SDStatus};

use crate::cid::{register_bytes, text_of};
use crate::csd::{csd_block_count_of, csd_card_size_of, csd_structure_of};
use crate::ocr::voltage_window_of;
use vstd::prelude::*;

verus! {

/// Decoding keeps no state of its own: registers that hold the same raw
/// words decode to the same values, field for field, each time they are read.
pub proof fn lemma_decoding_is_repeatable(
    csd_a: CSD,
    csd_b: CSD,
    cid_a: CID,
    cid_b: CID,
    ocr_a: OCR,
    ocr_b: OCR,
)
    requires
        csd_a.words == csd_b.words,
        cid_a.words == cid_b.words,
        ocr_a.0 == ocr_b.0,
    ensures
        csd_a@ == csd_b@,
        csd_structure_of(csd_a@) == csd_structure_of(csd_b@),
        csd_block_count_of(csd_a@) == csd_block_count_of(csd_b@),
        csd_card_size_of(csd_a@) == csd_card_size_of(csd_b@),
        cid_a@ == cid_b@,
        text_of(register_bytes(cid_a@, 1, 2)) == text_of(register_bytes(cid_b@, 1, 2)),
        text_of(register_bytes(cid_a@, 3, 5)) == text_of(register_bytes(cid_b@, 3, 5)),
        voltage_window_of(ocr_a@) == voltage_window_of(ocr_b@),
{
}

} // verus!
