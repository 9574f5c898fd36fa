//! SD-specific command definitions, application commands (ACMD) included.
use crate::cmd::{cmd, Cmd, ResponseLen, Resp, R1, R3};
use vstd::prelude::*;

verus! {

/// R6: Published RCA response
pub struct R6;

/// R7: Card interface condition
pub struct R7;

impl Resp for R6 {
    open spec fn spec_length() -> ResponseLen {
        ResponseLen::R48
    }

    fn length() -> (r: ResponseLen) {
        ResponseLen::R48
    }
}

impl Resp for R7 {
    open spec fn spec_length() -> ResponseLen {
        ResponseLen::R48
    }

    fn length() -> (r: ResponseLen) {
        ResponseLen::R48
    }
}

/// CMD3: Send RCA
pub fn send_relative_address() -> (r: Cmd<R6>)
    ensures
        r.cmd == 3,
        r.arg == 0,
{
    cmd(3, 0)
}

/// CMD6: Switch Function Command
pub fn cmd6(arg: u32) -> (r: Cmd<R1>)
    ensures
        r.cmd == 6,
        r.arg == arg,
{
    cmd(6, arg)
}

/// CMD8: Sends memory card interface conditions. The low four bits of
/// `voltage` go to `[11:8]`, the check pattern to `[7:0]`.
pub fn send_if_cond(voltage: u8, checkpattern: u8) -> (r: Cmd<R7>)
    ensures
        r.cmd == 8,
        r.arg == (voltage % 16) * 0x100 + checkpattern,
{
    let arg = ((voltage & 0xF) as u32) << 8u32 | checkpattern as u32;
    proof {
        assert(((voltage & 0xF) as u32) << 8u32 | checkpattern as u32 == (voltage % 16) * 0x100
            + checkpattern) by (bit_vector);
    }
    cmd(8, arg)
}

/// CMD11: Switch to 1.8V bus signaling level
pub fn voltage_switch() -> (r: Cmd<R1>)
    ensures
        r.cmd == 11,
        r.arg == 0,
{
    cmd(11, 0)
}

/// CMD19: Send tuning pattern
pub fn send_tuning_block(addr: u32) -> (r: Cmd<R1>)
    ensures
        r.cmd == 19,
        r.arg == addr,
{
    cmd(19, addr)
}

/// CMD20: Speed class control
pub fn speed_class_control(arg: u32) -> (r: Cmd<R1>)
    ensures
        r.cmd == 20,
        r.arg == arg,
{
    cmd(20, arg)
}

/// CMD22: Address extension
pub fn address_extension(arg: u32) -> (r: Cmd<R1>)
    ensures
        r.cmd == 22,
        r.arg == arg,
{
    cmd(22, arg)
}

/// CMD23: Set block count
pub fn set_block_count(blockcount: u32) -> (r: Cmd<R1>)
    ensures
        r.cmd == 23,
        r.arg == blockcount,
{
    cmd(23, blockcount)
}

/// ACMD6: Bus Width
/// * `bw4bit` - Enable 4 bit bus width
pub fn set_bus_width(bw4bit: bool) -> (r: Cmd<R1>)
    ensures
        r.cmd == 6,
        r.arg == if bw4bit {
            2u32
        } else {
            0u32
        },
{
    let arg: u32 = if bw4bit {
        0b10
    } else {
        0b00
    };
    cmd(6, arg)
}

/// ACMD13: SD Status
pub fn sd_status() -> (r: Cmd<R1>)
    ensures
        r.cmd == 13,
        r.arg == 0,
{
    cmd(13, 0)
}

/// ACMD41: App Op Command
///
/// * `high_capacity` - Host supports high capacity cards (bit 30)
/// * `xpc` - Controls the maximum power and default speed mode of SDXC and SDUC cards (bit 28).
/// * `s18r` - Switch to 1.8V signaling (bit 24)
/// * `voltage_window` - The voltage window the host supports; its low 24 bits are sent.
pub fn sd_send_op_cond(high_capacity: bool, xpc: bool, s18r: bool, voltage_window: u32) -> (r: Cmd<
    R3,
>)
    ensures
        r.cmd == 41,
        r.arg == (if high_capacity {
            0x4000_0000int
        } else {
            0
        }) + (if xpc {
            0x1000_0000int
        } else {
            0
        }) + (if s18r {
            0x0100_0000int
        } else {
            0
        }) + voltage_window % 0x0100_0000,
{
    let hcs: u32 = if high_capacity {
        0x4000_0000
    } else {
        0
    };
    let xpc_bit: u32 = if xpc {
        0x1000_0000
    } else {
        0
    };
    let s18r_bit: u32 = if s18r {
        0x0100_0000
    } else {
        0
    };
    let arg = hcs | xpc_bit | s18r_bit | voltage_window & 0x00FF_FFFF;
    proof {
        assert((hcs == 0 || hcs == 0x4000_0000) && (xpc_bit == 0 || xpc_bit == 0x1000_0000) && (
        s18r_bit == 0 || s18r_bit == 0x0100_0000) ==> hcs | xpc_bit | s18r_bit | voltage_window
            & 0x00FF_FFFF == hcs + xpc_bit + s18r_bit + voltage_window % 0x0100_0000)
            by (bit_vector);
    }
    cmd(41, arg)
}

/// ACMD51: Reads the SCR
pub fn send_scr() -> (r: Cmd<R1>)
    ensures
        r.cmd == 51,
        r.arg == 0,
{
    cmd(51, 0)
}

} // verus!
