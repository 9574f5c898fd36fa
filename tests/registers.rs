use sdio_host::bits::{extract, extract_word};
use sdio_host::emmc::{CardStatus, DeviceType, CID as EmmcCid};
use sdio_host::{
    BlockSize, BusWidth, CardCapacity, CsdStructure, CurrentConsumption, DecodeError,
    SDSpecVersion, SDStatus, CIC, CID, CSD, OCR, RCA, SCR,
};

const PANASONIC_CID: [u32; 4] = [4093715758, 333095359, 808993095, 22036825];
const PANASONIC_CSD: [u32; 4] = [171966712, 968064896, 1532559360, 1074659378];

fn words_to_u128(w: [u32; 4]) -> u128 {
    ((w[3] as u128) << 96) | ((w[2] as u128) << 64) | ((w[1] as u128) << 32) | w[0] as u128
}

fn field(value: u128, hi: u32, lo: u32) -> u128 {
    (value >> lo) & ((1u128 << (hi - lo + 1)) - 1)
}

#[test]
fn extract_reads_within_one_word() {
    let words = [0x1234_5678u32, 0x9ABC_DEF0];
    assert_eq!(extract(&words, 15, 8), 0x56);
    assert_eq!(extract(&words, 63, 60), 0x9);
    assert_eq!(extract(&words, 0, 0), 0);
    assert_eq!(extract(&words, 3, 3), 1);
}

#[test]
fn extract_straddles_word_boundary() {
    let words = [0xFFFF_0000u32, 0x0000_FFFF];
    assert_eq!(extract(&words, 47, 16), 0xFFFF_FFFF);
    assert_eq!(extract(&words, 35, 28), 0xFF);
    assert_eq!(extract(&words, 63, 48), 0);
}

#[test]
fn extract_matches_positional_value_for_every_cid_field() {
    let value = words_to_u128(PANASONIC_CID);
    let ranges = [(127, 120), (119, 104), (103, 64), (63, 56), (55, 24), (19, 12), (11, 8), (7, 1)];
    for (hi, lo) in ranges {
        let width = hi - lo + 1;
        if width <= 32 {
            assert_eq!(extract(&PANASONIC_CID, hi as usize, lo as usize) as u128, field(value, hi, lo));
        }
    }
    for lo in 0..97u32 {
        assert_eq!(extract(&PANASONIC_CID, (lo + 31) as usize, lo as usize) as u128, field(value, lo + 31, lo));
    }
}

#[test]
fn extract_word_single_register() {
    assert_eq!(extract_word(0xC0FF_8000, 23, 15), 0x1FF);
    assert_eq!(extract_word(0xC0FF_8000, 31, 31), 1);
}

#[test]
fn cid_from_integer_equals_cid_from_words() {
    let from_int = CID::from(words_to_u128(PANASONIC_CID));
    let from_words = CID::from(PANASONIC_CID);
    assert_eq!(from_int.words, from_words.words);
    assert_eq!(from_int.serial(), 3668033524);
    assert_eq!(from_int.product_name(), "Y08AG");
}

#[test]
fn cid_remaining_fields() {
    let cid = CID::from(PANASONIC_CID);
    assert_eq!(cid.product_revision(), 19);
    assert_eq!(cid.manufacturing_date(), (5, 2018));
    assert_eq!(cid.crc7(), 23);
}

#[test]
fn cid_invalid_text_reads_as_sentinel() {
    // OEM "PA", product name bytes C3 28 'A' 'G' 00: not UTF-8.
    let cid = CID::from(0x0150_41C3_2841_4700_0000_0000_0000_0000u128);
    assert_eq!(cid.manufacturer_id(), 1);
    assert_eq!(cid.oem_id(), "PA");
    assert_eq!(cid.product_name(), "<ERR>");
    let all_ones = CID::from(u128::MAX);
    assert_eq!(all_ones.oem_id(), "<ERR>");
    assert_eq!(all_ones.product_name(), "<ERR>");
}

#[test]
fn cid_text_decodes_multibyte_utf8() {
    // Product name bytes C3 A9 'A' 'B' 'C': "éABC".
    let cid = CID::from(0x0150_41C3_A941_4243_0000_0000_0000_0000u128);
    assert_eq!(cid.product_name(), "\u{e9}ABC");
}

#[test]
fn csd_fixture_fields() {
    let csd = CSD::from(PANASONIC_CSD);
    assert_eq!(csd.structure(), Ok(CsdStructure::V2));
    assert_eq!(csd.transfer_rate(), 0x32);
    assert_eq!(csd.block_length(), BlockSize::B512);
    assert_eq!(csd.erase_size_blocks(), 1);
    assert_eq!(csd.read_current_minimum_vdd(), CurrentConsumption::I_100mA);
    assert_eq!(csd.write_current_minimum_vdd(), CurrentConsumption::I_1mA);
    assert_eq!(csd.read_current_maximum_vdd(), CurrentConsumption::I_45mA);
    assert_eq!(csd.write_current_maximum_vdd(), CurrentConsumption::I_35mA);
    assert_eq!(CSD::from(words_to_u128(PANASONIC_CSD)).words, PANASONIC_CSD);
}

#[test]
fn csd_version_one_formula() {
    // Version 0, READ_BL_LEN 10, C_SIZE 0xABC, C_SIZE_MULT 5, sector size 3/7,
    // current codes 3, 6, 7, 1.
    let csd = CSD::from([0, 518429568, 656047, 0]);
    assert_eq!(csd.version(), 0);
    assert_eq!(csd.structure(), Ok(CsdStructure::V1));
    assert_eq!(csd.block_count(), Ok(351872));
    assert_eq!(csd.card_size(), Ok(360316928));
    assert_eq!(csd.block_length(), BlockSize::B1024);
    assert_eq!(csd.erase_size_blocks(), 37);
    assert_eq!(csd.read_current_minimum_vdd(), CurrentConsumption::I_10mA);
    assert_eq!(csd.write_current_minimum_vdd(), CurrentConsumption::I_60mA);
    assert_eq!(csd.read_current_maximum_vdd(), CurrentConsumption::I_200mA);
    assert_eq!(csd.write_current_maximum_vdd(), CurrentConsumption::I_5mA);
}

#[test]
fn csd_version_one_largest_fields() {
    // C_SIZE 0xFFF, C_SIZE_MULT 7, READ_BL_LEN 15.
    let value: u128 = (0xFFFu128 << 62) | (7u128 << 47) | (15u128 << 80);
    let csd = CSD::from(value);
    assert_eq!(csd.block_count(), Ok(0x1000 * 512));
    assert_eq!(csd.card_size(), Ok(0x1000 * 512 * 0x8000));
    assert_eq!(csd.block_length(), BlockSize::Unknown);
}

#[test]
fn csd_version_two_largest_c_size() {
    let value: u128 = (1u128 << 126) | (0x3F_FFFFu128 << 48);
    let csd = CSD::from(value);
    assert_eq!(csd.block_count(), Ok(0x1_0000_0000));
    assert_eq!(csd.card_size(), Ok(0x1_0000_0000 * 512));
}

#[test]
fn csd_unrecognized_versions_are_errors() {
    let sduc = CSD::from([0, 305397760, 0, 2147483648]);
    assert_eq!(sduc.version(), 2);
    assert_eq!(sduc.structure(), Err(DecodeError::UnrecognizedStructureVersion(2)));
    assert_eq!(sduc.block_count(), Err(DecodeError::UnrecognizedStructureVersion(2)));
    assert_eq!(sduc.card_size(), Err(DecodeError::UnrecognizedStructureVersion(2)));
    let reserved = CSD::from([0, 0, 0, 3221225472]);
    assert_eq!(reserved.structure(), Err(DecodeError::UnrecognizedStructureVersion(3)));
    assert_eq!(reserved.block_count(), Err(DecodeError::UnrecognizedStructureVersion(3)));
}

#[test]
fn current_consumption_milliamps() {
    assert_eq!(CurrentConsumption::I_0mA.milliamps(), 0);
    assert_eq!(CurrentConsumption::I_45mA.milliamps(), 45);
    assert_eq!(CurrentConsumption::I_200mA.milliamps(), 200);
    assert_eq!(u32::from(&CurrentConsumption::I_80mA), 80);
    assert_eq!(u32::from(&CurrentConsumption::I_1mA), 1);
}

#[test]
fn card_capacity_default_is_standard() {
    assert_eq!(CardCapacity::default(), CardCapacity::SDSC);
}

#[test]
fn ocr_window_edges() {
    assert_eq!(OCR::from(0).voltage_window_mv(), None);
    assert_eq!(OCR::from(0xFF00_7FFF).voltage_window_mv(), None);
    assert_eq!(OCR::from(1 << 23).voltage_window_mv(), Some((3500, 3600)));
    assert_eq!(OCR::from(1 << 15).voltage_window_mv(), Some((2700, 2800)));
    assert_eq!(OCR::from(1 << 17).voltage_window_mv(), Some((2900, 3000)));
    assert_eq!(OCR::from((1 << 15) | (1 << 23)).voltage_window_mv(), Some((2700, 3600)));
}

#[test]
fn ocr_window_min_steps_by_band() {
    for k in 15..24u32 {
        let ocr = OCR::from((1u32 << k) | (1 << 23));
        let (min, max) = ocr.voltage_window_mv().unwrap();
        assert_eq!(min as u32, 2700 + 100 * (k - 15));
        assert_eq!(max, 3600);
    }
}

#[test]
fn ocr_flags() {
    let ocr = OCR::from(0x2900_0000);
    assert!(ocr.v18_allowed());
    assert!(ocr.over_2tb());
    assert!(ocr.uhs2_card_status());
    assert!(!ocr.high_capacity());
    assert!(ocr.is_busy());
    assert!(ocr.is_dual_voltage_card());
    assert!(!OCR::from(0x8000_0000).is_busy());
}

#[test]
fn scr_version_table() {
    let v = |spec: u32, spec3: u32, spec4: u32, specx: u32| {
        SCR::from([0, (spec << 24) | (spec3 << 15) | (spec4 << 10) | (specx << 6)]).version()
    };
    assert_eq!(v(0, 0, 0, 0), SDSpecVersion::V1_0);
    assert_eq!(v(1, 0, 0, 0), SDSpecVersion::V1_10);
    assert_eq!(v(2, 0, 0, 0), SDSpecVersion::V2);
    assert_eq!(v(2, 1, 0, 0), SDSpecVersion::V3);
    assert_eq!(v(2, 1, 1, 0), SDSpecVersion::V4);
    assert_eq!(v(2, 1, 0, 1), SDSpecVersion::V5);
    assert_eq!(v(2, 1, 1, 1), SDSpecVersion::V5);
    assert_eq!(v(2, 1, 1, 2), SDSpecVersion::V6);
    assert_eq!(v(2, 1, 0, 3), SDSpecVersion::V7);
    assert_eq!(v(2, 0, 0, 1), SDSpecVersion::Unknown);
    assert_eq!(v(3, 1, 0, 0), SDSpecVersion::Unknown);
    assert_eq!(v(2, 1, 0, 4), SDSpecVersion::Unknown);
}

#[test]
fn scr_bus_width_flags() {
    let scr = SCR::from([16777216, 37060608]);
    assert!(scr.bus_width_one());
    assert!(scr.bus_width_four());
    assert!(!SCR::from([0, 0x0001_0000]).bus_width_four());
}

#[test]
fn sd_status_remaining_fields() {
    let status = SDStatus::from([
        0, 0, 0, 0, 0, 0, 0, 0, 0, 0, 0, 0, 134676480, 33722368, 50331648, 2147483648,
    ]);
    assert_eq!(status.move_performance(), 2);
    assert_eq!(status.allocation_unit_size(), 9);
    assert_eq!(status.erase_size(), 8);
    assert_eq!(status.erase_timeout(), 1);
    assert_eq!(status.video_speed_class(), 0);
}

#[test]
fn sd_status_fields_at_their_words() {
    let mut words = [0u32; 16];
    words[15] = 0x6000_BEEF;
    words[13] = 0x0000_00AB;
    words[12] = 0xCD00_0000;
    words[11] = 0x0000_0077;
    words[9] = 0x000B_0000;
    words[8] = 0x0200_0000;
    let status = SDStatus::from(words);
    assert_eq!(status.bus_width(), BusWidth::Unknown);
    assert!(status.secure_mode());
    assert_eq!(status.sd_memory_card_type(), 0xBEEF);
    assert_eq!(status.erase_size(), 0xABCD);
    assert_eq!(status.video_speed_class(), 0x77);
    assert_eq!(status.app_perf_class(), 0xB);
    assert!(status.discard_support());
    let one_bit = SDStatus::from([0; 16]);
    assert_eq!(one_bit.bus_width(), BusWidth::One);
}

#[test]
fn rca_and_cic_fields() {
    let rca = RCA::from(0x1234_0500u32);
    assert_eq!(rca.address(), 0x1234);
    assert_eq!(rca.status(), 0x0500);
    let assigned = RCA::from(0xBEEFu16);
    assert_eq!(assigned.address(), 0xBEEF);
    assert_eq!(assigned.status(), 0);
    let cic = CIC::from(0x0000_01AAu32);
    assert_eq!(cic.voltage_accepted(), 1);
    assert_eq!(cic.pattern(), 0xAA);
}

#[test]
fn emmc_cid_fields() {
    let cid = EmmcCid::from([3203349079, 1377951405, 1196705332, 352387384]);
    assert_eq!(cid.manufacturer_id(), 0x15);
    assert_eq!(cid.device_type(), DeviceType::BGA);
    assert_eq!(cid.oem_application_id(), 0x01);
    assert_eq!(cid.product_name(), "8GTF4R");
    assert_eq!(cid.product_revision(), (2, 1));
    assert_eq!(cid.serial(), 0xDEAD_BEEF);
    assert_eq!(cid.manufacturing_date(), (3, 0xA));
}

#[test]
fn emmc_device_types() {
    let with_cbx = |cbx: u32| EmmcCid::from([0, 0, 0, cbx << 16]).device_type();
    assert_eq!(with_cbx(0), DeviceType::RemovableDevice);
    assert_eq!(with_cbx(1), DeviceType::BGA);
    assert_eq!(with_cbx(2), DeviceType::POP);
    assert_eq!(with_cbx(3), DeviceType::Unknown);
}

#[test]
fn emmc_card_status_flags() {
    let status = CardStatus::from(0x80u32);
    assert!(status.switch_error());
    assert!(!status.exception_event());
    let status = CardStatus::from(0x40u32);
    assert!(!status.switch_error());
    assert!(status.exception_event());
}

#[test]
fn decoding_twice_gives_identical_results() {
    let cid = CID::from(PANASONIC_CID);
    let csd = CSD::from(PANASONIC_CSD);
    let ocr = OCR::from(3237969920);
    assert_eq!(cid.product_name(), cid.product_name());
    assert_eq!(cid.oem_id(), cid.oem_id());
    assert_eq!(cid.serial(), CID::from(PANASONIC_CID).serial());
    assert_eq!(csd.block_count(), csd.block_count());
    assert_eq!(csd.card_size(), CSD::from(PANASONIC_CSD).card_size());
    assert_eq!(ocr.voltage_window_mv(), ocr.voltage_window_mv());
    assert_eq!(PANASONIC_CSD, csd.words);
}
