//! A single GPT channel (GPT164) set up by hand: periodic, PCLKD/4, period
//! 1250, both outputs toggling. The register values are computed here; the
//! caller writes them.
use vstd::prelude::*;

use crate::hal::timer::{GPTSourceT, Prescaler, TimerMode, MSTPCRD_GPT_BITS};

verus! {

/// The channel this module drives.
pub const SIMPLE_TIMER_CHANNEL: u8 = 4;

/// Period count.
pub const SIMPLE_TIMER_PERIOD: u32 = 1250;

/// Clears the module stop bits of the GPT 32 and 16 bit timers in MSTPCRD.
pub fn enable_gptimers(mstpcrd: &mut u32)
    ensures
        *final(mstpcrd) == *old(mstpcrd) & !MSTPCRD_GPT_BITS,
{
    *mstpcrd = *mstpcrd & !MSTPCRD_GPT_BITS;
}

/// Sets the bit of channel `ch` (0 to 7) in the shared start register.
pub fn start_timer(ch: u8, gtstr: &mut u32)
    requires
        ch <= 7,
    ensures
        *final(gtstr) == *old(gtstr) | (1u32 << (ch as u32)),
{
    *gtstr = *gtstr | (1u32 << (ch as u32));
}

/// Sets the bit of channel `ch` (0 to 7) in the shared stop register.
pub fn stop_timer(ch: u8, gtstp: &mut u32)
    requires
        ch <= 7,
    ensures
        *final(gtstp) == *old(gtstp) | (1u32 << (ch as u32)),
{
    *gtstp = *gtstp | (1u32 << (ch as u32));
}

/// Base address of the register block of 16-bit GPT channel `ch` (2 to 7).
pub fn get_reg_block_for_gpt16(ch: u8) -> (r: usize)
    requires
        2 <= ch <= 7,
    ensures
        r == 0x4007_8000 + 0x100 * ch,
{
    match ch {
        2 => 0x4007_8200,
        3 => 0x4007_8300,
        4 => 0x4007_8400,
        5 => 0x4007_8500,
        6 => 0x4007_8600,
        _ => 0x4007_8700,
    }
}

/// The registers of one GPT channel that the setup writes.
pub struct SimpleTimerRegs {
    pub gtssr: u32,
    pub gtpsr: u32,
    pub gtcsr: u32,
    /// Modified: the direction bit is set.
    pub gtuddtyc: u32,
    pub gtcr: u32,
    pub gtpr: u32,
    pub gtpbr: u32,
    pub gtcnt: u32,
    /// Modified: both outputs enabled, toggling at compare match and at the
    /// end of the cycle (function 0b01100).
    pub gtior: u32,
    pub gtccra: u32,
    pub gtccrb: u32,
    pub gtber: u32,
}

/// GTIOR fields that the setup replaces: GTIOA (bits 0 to 4) and GTIOB
/// (bits 16 to 20).
pub const GTIOR_IO_FIELDS: u32 = 0x001F_001F;

/// GTIOR bits that the setup sets: OAE (8), OBE (24) and function 0b01100
/// in both GTIOA and GTIOB.
pub const GTIOR_SETUP: u32 = 0x010C_010C;

/// Runs the channel: takes the GPT timers out of module stop (`mstpcrd`),
/// stops the channel (`gtstp`), sets it up (`regs`: software start, stop
/// and clear, counting up, periodic mode with PCLKD/4, period and buffer
/// 1250, counter cleared, both outputs toggling, compare registers A and B
/// at 0xFFFF, buffer operation for them and for the period) and starts it
/// (`gtstr`). The caller writes the registers in that order, `regs` field
/// by field.
pub fn get_timer(mstpcrd: &mut u32, gtstp: &mut u32, regs: &mut SimpleTimerRegs, gtstr: &mut u32)
    ensures
        *final(mstpcrd) == *old(mstpcrd) & !MSTPCRD_GPT_BITS,
        *final(gtstp) == *old(gtstp) | (1u32 << (SIMPLE_TIMER_CHANNEL as u32)),
        *final(gtstr) == *old(gtstr) | (1u32 << (SIMPLE_TIMER_CHANNEL as u32)),
        final(regs).gtssr == GPTSourceT::SOFTWARE.spec_bits(),
        final(regs).gtpsr == GPTSourceT::SOFTWARE.spec_bits(),
        final(regs).gtcsr == GPTSourceT::SOFTWARE.spec_bits(),
        final(regs).gtuddtyc == old(regs).gtuddtyc | 1,
        final(regs).gtcr == ((TimerMode::PERIODIC.spec_bits() as u32) << 16u32) | ((
        Prescaler::PCLKD_4.spec_bits() as u32) << 24u32),
        final(regs).gtpr == SIMPLE_TIMER_PERIOD,
        final(regs).gtpbr == SIMPLE_TIMER_PERIOD,
        final(regs).gtcnt == 0,
        final(regs).gtior == (old(regs).gtior & !GTIOR_IO_FIELDS) | GTIOR_SETUP,
        final(regs).gtccra == 0xFFFF,
        final(regs).gtccrb == 0xFFFF,
        final(regs).gtber == 0x0015_0000,
{
    enable_gptimers(mstpcrd);
    stop_timer(SIMPLE_TIMER_CHANNEL, gtstp);
    regs.gtssr = GPTSourceT::SOFTWARE.bits();
    regs.gtpsr = GPTSourceT::SOFTWARE.bits();
    regs.gtcsr = GPTSourceT::SOFTWARE.bits();
    regs.gtuddtyc = regs.gtuddtyc | 1;
    regs.gtcr = ((TimerMode::PERIODIC.bits() as u32) << 16) | ((Prescaler::PCLKD_4.bits() as u32)
        << 24);
    regs.gtpr = SIMPLE_TIMER_PERIOD;
    regs.gtpbr = SIMPLE_TIMER_PERIOD;
    regs.gtcnt = 0;
    regs.gtior = (regs.gtior & !GTIOR_IO_FIELDS) | GTIOR_SETUP;
    regs.gtccra = 0xFFFF;
    regs.gtccrb = 0xFFFF;
    regs.gtber = 0x0015_0000;
    start_timer(SIMPLE_TIMER_CHANNEL, gtstr);
}

} // verus!
