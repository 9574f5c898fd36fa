use sdio_host::cmd::{
    all_send_cid, app_cmd, card_status, cmd, go_inactive_state, idle, program_csd,
    read_multiple_blocks, read_single_block, select_card, send_cid, send_csd,
    set_block_length, stop_transmission, write_multiple_blocks, write_single_block, Cmd,
    ResponseLen, Resp, R1, R2, R3, Rz,
};
use sdio_host::sd_cmd::{
    address_extension, cmd6, sd_send_op_cond, sd_status, send_if_cond, send_relative_address,
    send_scr, send_tuning_block, set_block_count, set_bus_width, speed_class_control,
    voltage_switch, R6, R7,
};

fn frame<R: Resp>(c: &Cmd<R>) -> (u8, u32, ResponseLen) {
    (c.cmd, c.arg, c.response_len())
}

#[test]
fn select_card_packs_rca_in_upper_half() {
    assert_eq!(frame(&select_card(0x1234)), (7, 0x1234_0000, ResponseLen::R48));
}

#[test]
fn send_if_cond_packs_voltage_and_pattern() {
    assert_eq!(frame(&send_if_cond(0x1, 0xAA)), (8, 0x01AA, ResponseLen::R48));
}

#[test]
fn send_if_cond_masks_voltage_to_four_bits() {
    assert_eq!(send_if_cond(0xF1, 0x55).arg, 0x0155);
}

#[test]
fn sd_send_op_cond_high_capacity() {
    assert_eq!(
        frame(&sd_send_op_cond(true, false, false, 0x00FF_8000)),
        (41, 0x40FF_8000, ResponseLen::R48)
    );
}

#[test]
fn sd_send_op_cond_all_flags_and_masked_window() {
    assert_eq!(sd_send_op_cond(true, true, true, 0xFFFF_FFFF).arg, 0x51FF_FFFF);
    assert_eq!(sd_send_op_cond(false, true, false, 0).arg, 0x1000_0000);
    assert_eq!(sd_send_op_cond(false, false, true, 0).arg, 0x0100_0000);
}

#[test]
fn set_bus_width_four_and_one() {
    assert_eq!(frame(&set_bus_width(true)), (6, 0b10, ResponseLen::R48));
    assert_eq!(frame(&set_bus_width(false)), (6, 0b00, ResponseLen::R48));
}

#[test]
fn card_status_with_and_without_task_status() {
    assert_eq!(frame(&card_status(0xABCD, true)), (13, 0xABCD_8000, ResponseLen::R48));
    assert_eq!(card_status(0xABCD, false).arg, 0xABCD_0000);
}

#[test]
fn rca_commands_shift_address() {
    assert_eq!(frame(&send_csd(0x0001)), (9, 0x0001_0000, ResponseLen::R136));
    assert_eq!(frame(&send_cid(0xFFFF)), (10, 0xFFFF_0000, ResponseLen::R136));
    assert_eq!(frame(&go_inactive_state(0x8000)), (15, 0x8000_0000, ResponseLen::Zero));
    assert_eq!(frame(&app_cmd(0x4321)), (55, 0x4321_0000, ResponseLen::R48));
}

#[test]
fn commands_without_arguments() {
    assert_eq!(frame(&idle()), (0, 0, ResponseLen::Zero));
    assert_eq!(frame(&all_send_cid()), (2, 0, ResponseLen::R136));
    assert_eq!(frame(&send_relative_address()), (3, 0, ResponseLen::R48));
    assert_eq!(frame(&voltage_switch()), (11, 0, ResponseLen::R48));
    assert_eq!(frame(&stop_transmission()), (12, 0, ResponseLen::R48));
    assert_eq!(frame(&program_csd()), (27, 0, ResponseLen::R48));
    assert_eq!(frame(&sd_status()), (13, 0, ResponseLen::R48));
    assert_eq!(frame(&send_scr()), (51, 0, ResponseLen::R48));
}

#[test]
fn commands_passing_argument_through() {
    assert_eq!(frame(&cmd6(0x80FF_FFF1)), (6, 0x80FF_FFF1, ResponseLen::R48));
    assert_eq!(frame(&set_block_length(512)), (16, 512, ResponseLen::R48));
    assert_eq!(frame(&read_single_block(0xDEAD)), (17, 0xDEAD, ResponseLen::R48));
    assert_eq!(frame(&read_multiple_blocks(7)), (18, 7, ResponseLen::R48));
    assert_eq!(frame(&send_tuning_block(1)), (19, 1, ResponseLen::R48));
    assert_eq!(frame(&speed_class_control(2)), (20, 2, ResponseLen::R48));
    assert_eq!(frame(&address_extension(3)), (22, 3, ResponseLen::R48));
    assert_eq!(frame(&set_block_count(4)), (23, 4, ResponseLen::R48));
    assert_eq!(frame(&write_single_block(5)), (24, 5, ResponseLen::R48));
    assert_eq!(frame(&write_multiple_blocks(6)), (25, 6, ResponseLen::R48));
}

#[test]
fn generic_builder_and_marker_lengths() {
    let c: Cmd<R2> = cmd(9, 42);
    assert_eq!(frame(&c), (9, 42, ResponseLen::R136));
    assert!(Rz::length() == ResponseLen::Zero);
    assert!(R1::length() == ResponseLen::R48);
    assert!(R2::length() == ResponseLen::R136);
    assert!(R3::length() == ResponseLen::R48);
    assert!(R6::length() == ResponseLen::R48);
    assert!(R7::length() == ResponseLen::R48);
}
