//! Host to card commands common to SD and eMMC.
//!
//! Each builder fixes the command index and packs its parameters into the
//! argument at the bit positions the protocol defines; every other bit of the
//! argument is zero. The response marker type says what the card answers
//! with, and so how long that answer is.
use core::marker::PhantomData;
use vstd::prelude::*;

pub use crate::sd_cmd::{
    address_extension, cmd6, sd_send_op_cond, sd_status, send_if_cond, send_relative_address,
    send_scr, send_tuning_block, set_block_count, set_bus_width, speed_class_control,
    voltage_switch, R6, R7,
};

verus! {

/// Command Response type
#[derive(Eq, PartialEq, Copy, Clone, Debug, Structural)]
pub enum ResponseLen {
    /// No response expected
    Zero,
    /// Short (48 bit) response
    R48,
    /// Long (136 bit) response
    R136,
}

/// A response format, named by its marker type.
pub trait Resp {
    /// The length of this response.
    spec fn spec_length() -> ResponseLen;

    /// The length of this response, for the transport to size its buffer.
    fn length() -> (r: ResponseLen)
        ensures
            r == Self::spec_length(),
    ;
}

/// Marker for commands that don't have any response
pub struct Rz;

/// R1: Normal response
pub struct R1;

/// R2: CID and CSD register
pub struct R2;

/// R3: OCR register
pub struct R3;

impl Resp for Rz {
    open spec fn spec_length() -> ResponseLen {
        ResponseLen::Zero
    }

    fn length() -> (r: ResponseLen) {
        ResponseLen::Zero
    }
}

impl Resp for R1 {
    open spec fn spec_length() -> ResponseLen {
        ResponseLen::R48
    }

    fn length() -> (r: ResponseLen) {
        ResponseLen::R48
    }
}

impl Resp for R2 {
    open spec fn spec_length() -> ResponseLen {
        ResponseLen::R136
    }

    fn length() -> (r: ResponseLen) {
        ResponseLen::R136
    }
}

impl Resp for R3 {
    open spec fn spec_length() -> ResponseLen {
        ResponseLen::R48
    }

    fn length() -> (r: ResponseLen) {
        ResponseLen::R48
    }
}

/// Host to Card commands
pub struct Cmd<R: Resp> {
    pub cmd: u8,
    pub arg: u32,
    pub resp: PhantomData<R>,
}

impl<R: Resp> Cmd<R> {
    /// The length of the response this command expects
    pub fn response_len(&self) -> (r: ResponseLen)
        ensures
            r == R::spec_length(),
    {
        R::length()
    }
}

/// A command with the given index and argument.
pub fn cmd<R: Resp>(index: u8, arg: u32) -> (r: Cmd<R>)
    ensures
        r.cmd == index,
        r.arg == arg,
{
    Cmd { cmd: index, arg, resp: PhantomData }
}

/// A relative card address in the upper half of an argument.
pub(crate) fn rca_arg(rca: u16) -> (r: u32)
    ensures
        r == rca * 0x1_0000,
{
    let arg = (rca as u32) << 16u32;
    proof {
        assert((rca as u32) << 16u32 == rca * 0x1_0000) by (bit_vector);
    }
    arg
}

/// CMD0: Put card in idle mode
pub fn idle() -> (r: Cmd<Rz>)
    ensures
        r.cmd == 0,
        r.arg == 0,
{
    cmd(0, 0)
}

/// CMD2: Ask any card to send their CID
pub fn all_send_cid() -> (r: Cmd<R2>)
    ensures
        r.cmd == 2,
        r.arg == 0,
{
    cmd(2, 0)
}

/// CMD7: Select or deselect card
pub fn select_card(rca: u16) -> (r: Cmd<R1>)
    ensures
        r.cmd == 7,
        r.arg == rca * 0x1_0000,
{
    cmd(7, rca_arg(rca))
}

/// CMD9: Send CSD
pub fn send_csd(rca: u16) -> (r: Cmd<R2>)
    ensures
        r.cmd == 9,
        r.arg == rca * 0x1_0000,
{
    cmd(9, rca_arg(rca))
}

/// CMD10: Send CID
pub fn send_cid(rca: u16) -> (r: Cmd<R2>)
    ensures
        r.cmd == 10,
        r.arg == rca * 0x1_0000,
{
    cmd(10, rca_arg(rca))
}

/// CMD12: Stop transmission
pub fn stop_transmission() -> (r: Cmd<R1>)
    ensures
        r.cmd == 12,
        r.arg == 0,
{
    cmd(12, 0)
}

/// CMD13: Ask card to send status or task status
pub fn card_status(rca: u16, task_status: bool) -> (r: Cmd<R1>)
    ensures
        r.cmd == 13,
        r.arg == rca * 0x1_0000 + if task_status {
            0x8000int
        } else {
            0
        },
{
    let task: u32 = if task_status {
        0x8000
    } else {
        0
    };
    let arg = (rca as u32) << 16u32 | task;
    proof {
        assert(task == 0 || task == 0x8000 ==> (rca as u32) << 16u32 | task == rca * 0x1_0000
            + task) by (bit_vector);
    }
    cmd(13, arg)
}

/// CMD15: Sends card to inactive state
pub fn go_inactive_state(rca: u16) -> (r: Cmd<Rz>)
    ensures
        r.cmd == 15,
        r.arg == rca * 0x1_0000,
{
    cmd(15, rca_arg(rca))
}

/// CMD16: Set block len
pub fn set_block_length(blocklen: u32) -> (r: Cmd<R1>)
    ensures
        r.cmd == 16,
        r.arg == blocklen,
{
    cmd(16, blocklen)
}

/// CMD17: Read a single block from the card
pub fn read_single_block(addr: u32) -> (r: Cmd<R1>)
    ensures
        r.cmd == 17,
        r.arg == addr,
{
    cmd(17, addr)
}

/// CMD18: Read multiple block from the card
pub fn read_multiple_blocks(addr: u32) -> (r: Cmd<R1>)
    ensures
        r.cmd == 18,
        r.arg == addr,
{
    cmd(18, addr)
}

/// CMD24: Write block
pub fn write_single_block(addr: u32) -> (r: Cmd<R1>)
    ensures
        r.cmd == 24,
        r.arg == addr,
{
    cmd(24, addr)
}

/// CMD25: Write multiple blocks
pub fn write_multiple_blocks(addr: u32) -> (r: Cmd<R1>)
    ensures
        r.cmd == 25,
        r.arg == addr,
{
    cmd(25, addr)
}

/// CMD27: Program CSD
pub fn program_csd() -> (r: Cmd<R1>)
    ensures
        r.cmd == 27,
        r.arg == 0,
{
    cmd(27, 0)
}

/// CMD55: App Command. Indicates that next command will be a app command
pub fn app_cmd(rca: u16) -> (r: Cmd<R1>)
    ensures
        r.cmd == 55,
        r.arg == rca * 0x1_0000,
{
    cmd(55, rca_arg(rca))
}

} // verus!
