//! A millisecond counter driven by an AGT timer's underflow interrupt,
//! the counterpart of Arduino's `millis()`.
//!
//! The AGT runs from PCLKB (24 MHz) divided by 8 and reloads from 3000, so
//! it underflows once per millisecond; each underflow adds one to the count.
use core::marker::PhantomData;
use vstd::prelude::*;

use crate::hal::timer::{
    agtcr_modified, AGTCfg, AGTPrescaler, AGTimer, AGTimerInstance, Configured, Unconfigured,
    AGTCR_TSTART, AGTCR_TSTOP, AGTCR_TUNDF, AGTMR1_TCK_MASK,
};

verus! {

/// Amount the count grows per underflow.
pub const MILLIS_INCREMENT: u32 = 1;

/// Reload count of the AGT: 24 MHz / 8 / 3000 = 1 kHz.
pub const MILLIS_COUNTS: u16 = 3000;

/// The elapsed milliseconds, wrapping around after `u32::MAX`.
pub struct MillisCounter {
    count: u32,
}

impl MillisCounter {
    pub closed spec fn spec_count(self) -> u32 {
        self.count
    }

    pub fn new() -> (r: Self)
        ensures
            r.spec_count() == 0,
    {
        MillisCounter { count: 0 }
    }

    /// The elapsed milliseconds.
    pub fn get(&self) -> (r: u32)
        ensures
            r == self.spec_count(),
    {
        self.count
    }

    /// One underflow: adds the increment, wrapping.
    pub fn tick(&mut self)
        ensures
            final(self).spec_count() == (old(self).spec_count() + MILLIS_INCREMENT) % 0x1_0000_0000,
    {
        self.count = self.count.wrapping_add(MILLIS_INCREMENT);
    }
}

/// The configuration that makes an AGT underflow once per millisecond.
pub fn millis_timer_config() -> (r: AGTCfg)
    ensures
        r.counts == MILLIS_COUNTS,
        r.prescaler == AGTPrescaler::PCLKD_8,
{
    AGTCfg { counts: MILLIS_COUNTS, prescaler: AGTPrescaler::PCLKD_8 }
}

/// ICU event of the underflow of AGT channel `ch`.
pub open spec fn agt_underflow_event(ch: u8) -> u8 {
    if ch == 0 {
        0x1E
    } else {
        0x21
    }
}

/// The AGTCR value with the underflow flag cleared, as the interrupt does.
pub fn agtcr_clear_underflow(agtcr: &mut u8)
    ensures
        *final(agtcr) == agtcr_modified(*old(agtcr), 0, AGTCR_TUNDF),
{
    *agtcr = ((*agtcr | 0xF0) | 0u8) & !AGTCR_TUNDF;
}

/// Drives the millisecond count from AGT `T`.
pub struct MillisTimer<T: AGTimerInstance> {
    _phantom: PhantomData<T>,
    timer: AGTimer<T, Configured>,
}

impl<T: AGTimerInstance> MillisTimer<T> {
    /// Configures the timer to underflow once per millisecond (reload
    /// register `agt_reg`, mode register `agtmr1`). The caller links
    /// `underflow_event` to the interrupt that runs `MillisCounter::tick`.
    pub fn new(agt: AGTimer<T, Unconfigured>, agt_reg: &mut u16, agtmr1: &mut u8) -> (r: Self)
        ensures
            *final(agt_reg) == MILLIS_COUNTS,
            *final(agtmr1) == (*old(agtmr1) & !AGTMR1_TCK_MASK) | ((
            AGTPrescaler::PCLKD_8.spec_bits() & 7u8) << 4u8),
    {
        let agt_cfg = agt.configure(millis_timer_config(), agt_reg, agtmr1);
        MillisTimer { _phantom: PhantomData, timer: agt_cfg }
    }

    /// ICU event of the timer's underflow: 0x1E for AGT0, 0x21 for AGT1.
    pub fn underflow_event(&self) -> (r: u8)
        ensures
            r == agt_underflow_event(T::spec_channel()),
    {
        match T::channel() {
            0 => 0x01E,
            _ => 0x021,
        }
    }

    pub fn start(&mut self, agtcr: &mut u8)
        ensures
            *final(agtcr) == agtcr_modified(*old(agtcr), AGTCR_TSTART, 0),
    {
        self.timer.start(agtcr);
    }

    pub fn stop(&mut self, agtcr: &mut u8)
        ensures
            *final(agtcr) == agtcr_modified(*old(agtcr), AGTCR_TSTOP, AGTCR_TSTART),
    {
        self.timer.stop(agtcr);
    }

    pub fn clear(&mut self, agt_reg: &mut u16)
        ensures
            *final(agt_reg) == 0xFFFF,
    {
        self.timer.clear(agt_reg);
    }
}

} // verus!
