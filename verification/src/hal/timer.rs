//! General purpose (GPT) and asynchronous general purpose (AGT) timers.
//!
//! The timer types are typestates: a timer has to be configured before it
//! can run. Each operation computes the values of the registers it touches;
//! a register the operation modifies is passed in with its current value, a
//! register it writes from scratch is passed in to receive the new value.
use core::marker::PhantomData;
use vstd::prelude::*;

verus! {

/// Module stop control register D: bits of GPT32 (5) and GPT16 (6).
pub const MSTPCRD_GPT_BITS: u32 = 0x0000_0060;

/// Module stop control register D: bits of AGT1 (2) and AGT0 (3).
pub const MSTPCRD_AGT_BITS: u32 = 0x0000_000C;

/// Clears the module stop bits of the GPT 32 and 16 bit timers in MSTPCRD.
pub fn enable_gptimers(mstpcrd: &mut u32)
    ensures
        *final(mstpcrd) == *old(mstpcrd) & !MSTPCRD_GPT_BITS,
{
    *mstpcrd = *mstpcrd & !MSTPCRD_GPT_BITS;
}

/// Clears the module stop bits of the two AGT timers in MSTPCRD.
pub fn enable_agtimers(mstpcrd: &mut u32)
    ensures
        *final(mstpcrd) == *old(mstpcrd) & !MSTPCRD_AGT_BITS,
{
    *mstpcrd = *mstpcrd & !MSTPCRD_AGT_BITS;
}

/// Clock divider of a GPT timer.
#[allow(non_camel_case_types)]
#[derive(Debug, Clone, Copy, PartialEq, Eq, Structural)]
pub enum Prescaler {
    PCLKD_1,
    PCLKD_4,
    PCLKD_16,
    PCLKD_64,
    PCLKD_256,
    PCLKD_1024,
}

impl Prescaler {
    pub open spec fn spec_divisor(self) -> u32 {
        match self {
            Prescaler::PCLKD_1 => 1,
            Prescaler::PCLKD_4 => 4,
            Prescaler::PCLKD_16 => 16,
            Prescaler::PCLKD_64 => 64,
            Prescaler::PCLKD_256 => 256,
            Prescaler::PCLKD_1024 => 1024,
        }
    }

    pub open spec fn spec_bits(self) -> u8 {
        match self {
            Prescaler::PCLKD_1 => 0,
            Prescaler::PCLKD_4 => 1,
            Prescaler::PCLKD_16 => 2,
            Prescaler::PCLKD_64 => 3,
            Prescaler::PCLKD_256 => 4,
            Prescaler::PCLKD_1024 => 5,
        }
    }

    /// The clock divisor this prescaler applies.
    pub fn divisor(&self) -> (r: u32)
        ensures
            r == self.spec_divisor(),
    {
        match self {
            Prescaler::PCLKD_1 => 1,
            Prescaler::PCLKD_4 => 4,
            Prescaler::PCLKD_16 => 16,
            Prescaler::PCLKD_64 => 64,
            Prescaler::PCLKD_256 => 256,
            Prescaler::PCLKD_1024 => 1024,
        }
    }

    /// The value of the TPCS field that selects this prescaler.
    pub fn bits(&self) -> (r: u8)
        ensures
            r == self.spec_bits(),
    {
        match self {
            Prescaler::PCLKD_1 => 0,
            Prescaler::PCLKD_4 => 1,
            Prescaler::PCLKD_16 => 2,
            Prescaler::PCLKD_64 => 3,
            Prescaler::PCLKD_256 => 4,
            Prescaler::PCLKD_1024 => 5,
        }
    }
}

/// Counting mode of a GPT timer.
#[allow(non_camel_case_types)]
#[derive(Debug, Clone, Copy, PartialEq, Eq, Structural)]
pub enum TimerMode {
    /// Timer restarts after period elapses.
    PERIODIC,
    /// Timer stops after period elapses.
    ONE_SHOT,
}

impl TimerMode {
    pub open spec fn spec_bits(self) -> u8 {
        match self {
            TimerMode::PERIODIC => 0,
            TimerMode::ONE_SHOT => 1,
        }
    }

    /// The value of the MD field that selects this mode.
    pub fn bits(&self) -> (r: u8)
        ensures
            r == self.spec_bits(),
    {
        match self {
            TimerMode::PERIODIC => 0,
            TimerMode::ONE_SHOT => 1,
        }
    }
}

/// PWM wave shape.
#[allow(non_camel_case_types)]
#[derive(Debug, Clone, Copy, PartialEq, Eq, Structural)]
pub enum PwmMode {
    /// Sawtooth wave (the compare match register must be set).
    SAWTOOTH_WAVE_PWM,
    /// Symmetric triangle wave.
    TRIANGLE_WAVE_SYMMETRIC_PWM,
    /// Asymmetric triangle wave.
    TRIANGLE_WAVE_ASYMMETRIC_PWM,
    /// Asymmetric triangle wave whose trough and crest duty cycles are set once.
    TRIANGLE_WAVE_ASYMMETRIC_PWM_MODE3,
}

impl PwmMode {
    pub open spec fn spec_bits(self) -> u8 {
        match self {
            PwmMode::SAWTOOTH_WAVE_PWM => 0,
            PwmMode::TRIANGLE_WAVE_SYMMETRIC_PWM => 4,
            PwmMode::TRIANGLE_WAVE_ASYMMETRIC_PWM => 5,
            PwmMode::TRIANGLE_WAVE_ASYMMETRIC_PWM_MODE3 => 6,
        }
    }

    /// The value of the MD field that selects this wave shape.
    pub fn bits(&self) -> (r: u8)
        ensures
            r == self.spec_bits(),
    {
        match self {
            PwmMode::SAWTOOTH_WAVE_PWM => 0,
            PwmMode::TRIANGLE_WAVE_SYMMETRIC_PWM => 4,
            PwmMode::TRIANGLE_WAVE_ASYMMETRIC_PWM => 5,
            PwmMode::TRIANGLE_WAVE_ASYMMETRIC_PWM_MODE3 => 6,
        }
    }
}

/// Counting direction.
#[derive(Debug, Clone, Copy, PartialEq, Eq, Structural)]
pub enum CountDir {
    Down,
    Up,
}

impl From<bool> for CountDir {
    fn from(value: bool) -> (r: CountDir) {
        if value {
            CountDir::Up
        } else {
            CountDir::Down
        }
    }
}

impl vstd::std_specs::convert::FromSpecImpl<bool> for CountDir {
    open spec fn obeys_from_spec() -> bool {
        true
    }

    open spec fn from_spec(v: bool) -> CountDir {
        if v {
            CountDir::Up
        } else {
            CountDir::Down
        }
    }
}

impl From<CountDir> for bool {
    fn from(value: CountDir) -> (r: bool) {
        match value {
            CountDir::Down => false,
            CountDir::Up => true,
        }
    }
}

impl vstd::std_specs::convert::FromSpecImpl<CountDir> for bool {
    open spec fn obeys_from_spec() -> bool {
        true
    }

    open spec fn from_spec(v: CountDir) -> bool {
        v == CountDir::Up
    }
}

/// Typestate: the timer has not been configured.
pub struct Unconfigured;

/// Typestate: the timer has been configured and may run.
pub struct Configured;

/// Typestate: no counting mode chosen yet.
pub struct NotSet;

/// Typestate: periodic counting.
pub struct Periodic;

/// Typestate: one-shot counting.
pub struct OneShot;

/// Typestate: PWM output.
pub struct Pwm;

/// Typestate: input capture.
pub struct InputCapture;

/// Width of a timer's counter.
pub trait TimerSize {
    spec fn spec_max() -> u32;

    /// The largest count the counter holds (every counter has at least 16
    /// bits).
    fn max_value() -> (r: u32)
        ensures
            r == Self::spec_max(),
            r >= 0xFFFF,
    ;
}

/// 32 bit counter.
pub struct Bits32;

impl TimerSize for Bits32 {
    open spec fn spec_max() -> u32 {
        u32::MAX
    }

    fn max_value() -> (r: u32) {
        u32::MAX
    }
}

/// 16 bit counter.
pub struct Bits16;

impl TimerSize for Bits16 {
    open spec fn spec_max() -> u32 {
        0xFFFF
    }

    fn max_value() -> (r: u32) {
        0xFFFF
    }
}

/// A GPT channel: its counter width and its channel number (0 to 7).
pub trait TimerInstance {
    type Width: TimerSize;

    spec fn spec_channel() -> u8;

    fn channel() -> (r: u8)
        ensures
            r == Self::spec_channel(),
            r < 8,
    ;
}

/// Conversion of a timer peripheral into its driver.
pub trait TimerExt {
    type Timer;

    fn into_timer(self) -> Self::Timer;
}

/// GPT320 (32 bit, channel 0).
pub struct Gpt0;

/// GPT321 (32 bit, channel 1).
pub struct Gpt1;

/// GPT162 (16 bit, channel 2).
pub struct Gpt2;

/// GPT163 (16 bit, channel 3).
pub struct Gpt3;

/// GPT164 (16 bit, channel 4).
pub struct Gpt4;

/// GPT165 (16 bit, channel 5).
pub struct Gpt5;

/// GPT166 (16 bit, channel 6).
pub struct Gpt6;

/// GPT167 (16 bit, channel 7).
pub struct Gpt7;

impl TimerInstance for Gpt0 {
    type Width = Bits32;

    open spec fn spec_channel() -> u8 {
        0
    }

    fn channel() -> (r: u8) {
        0
    }
}

impl TimerInstance for Gpt1 {
    type Width = Bits32;

    open spec fn spec_channel() -> u8 {
        1
    }

    fn channel() -> (r: u8) {
        1
    }
}

impl TimerInstance for Gpt2 {
    type Width = Bits16;

    open spec fn spec_channel() -> u8 {
        2
    }

    fn channel() -> (r: u8) {
        2
    }
}

impl TimerInstance for Gpt3 {
    type Width = Bits16;

    open spec fn spec_channel() -> u8 {
        3
    }

    fn channel() -> (r: u8) {
        3
    }
}

impl TimerInstance for Gpt4 {
    type Width = Bits16;

    open spec fn spec_channel() -> u8 {
        4
    }

    fn channel() -> (r: u8) {
        4
    }
}

impl TimerInstance for Gpt5 {
    type Width = Bits16;

    open spec fn spec_channel() -> u8 {
        5
    }

    fn channel() -> (r: u8) {
        5
    }
}

impl TimerInstance for Gpt6 {
    type Width = Bits16;

    open spec fn spec_channel() -> u8 {
        6
    }

    fn channel() -> (r: u8) {
        6
    }
}

impl TimerInstance for Gpt7 {
    type Width = Bits16;

    open spec fn spec_channel() -> u8 {
        7
    }

    fn channel() -> (r: u8) {
        7
    }
}

impl TimerExt for Gpt0 {
    type Timer = GPTimer<Gpt0, Unconfigured, NotSet>;

    fn into_timer(self) -> GPTimer<Gpt0, Unconfigured, NotSet> {
        GPTimer::new()
    }
}

impl TimerExt for Gpt1 {
    type Timer = GPTimer<Gpt1, Unconfigured, NotSet>;

    fn into_timer(self) -> GPTimer<Gpt1, Unconfigured, NotSet> {
        GPTimer::new()
    }
}

impl TimerExt for Gpt2 {
    type Timer = GPTimer<Gpt2, Unconfigured, NotSet>;

    fn into_timer(self) -> GPTimer<Gpt2, Unconfigured, NotSet> {
        GPTimer::new()
    }
}

impl TimerExt for Gpt3 {
    type Timer = GPTimer<Gpt3, Unconfigured, NotSet>;

    fn into_timer(self) -> GPTimer<Gpt3, Unconfigured, NotSet> {
        GPTimer::new()
    }
}

impl TimerExt for Gpt4 {
    type Timer = GPTimer<Gpt4, Unconfigured, NotSet>;

    fn into_timer(self) -> GPTimer<Gpt4, Unconfigured, NotSet> {
        GPTimer::new()
    }
}

impl TimerExt for Gpt5 {
    type Timer = GPTimer<Gpt5, Unconfigured, NotSet>;

    fn into_timer(self) -> GPTimer<Gpt5, Unconfigured, NotSet> {
        GPTimer::new()
    }
}

impl TimerExt for Gpt6 {
    type Timer = GPTimer<Gpt6, Unconfigured, NotSet>;

    fn into_timer(self) -> GPTimer<Gpt6, Unconfigured, NotSet> {
        GPTimer::new()
    }
}

impl TimerExt for Gpt7 {
    type Timer = GPTimer<Gpt7, Unconfigured, NotSet>;

    fn into_timer(self) -> GPTimer<Gpt7, Unconfigured, NotSet> {
        GPTimer::new()
    }
}

/// Clock feeding the timers, in Hz.
pub const MCU_FREQ: u32 = 48_000_000;

/// Errors of timer configuration.
#[derive(Debug, Clone, Copy, PartialEq, Eq, Structural)]
pub enum TimerError {
    InvalidFrequencySetting,
}

/// `x`, saturated to the range of a `u32` (as a float-to-`u32` cast does).
pub open spec fn sat_u32(x: int) -> u32 {
    if x > u32::MAX {
        u32::MAX
    } else {
        x as u32
    }
}

/// Period count of `target_counts` clock ticks under divisor `d`.
pub open spec fn period_for(target_counts: u64, d: u32) -> u32 {
    sat_u32(target_counts as int / d as int)
}

/// The prescaler and period a timer whose counter tops out at `max` uses to
/// overflow every `target_counts` clock ticks: the first divisor of 1, 4,
/// 16, 256 and 1024 under which the period count is below `max`.
pub open spec fn period_selection(target_counts: u64, max: u32) -> Result<(u32, Prescaler), TimerError> {
    if period_for(target_counts, 1) < max {
        Ok((period_for(target_counts, 1), Prescaler::PCLKD_1))
    } else if period_for(target_counts, 4) < max {
        Ok((period_for(target_counts, 4), Prescaler::PCLKD_4))
    } else if period_for(target_counts, 16) < max {
        Ok((period_for(target_counts, 16), Prescaler::PCLKD_16))
    } else if period_for(target_counts, 256) < max {
        Ok((period_for(target_counts, 256), Prescaler::PCLKD_256))
    } else if period_for(target_counts, 1024) < max {
        Ok((period_for(target_counts, 1024), Prescaler::PCLKD_1024))
    } else {
        Err(TimerError::InvalidFrequencySetting)
    }
}

fn saturate_u32(x: u64) -> (r: u32)
    ensures
        r == sat_u32(x as int),
{
    if x > 0xFFFF_FFFFu64 {
        u32::MAX
    } else {
        x as u32
    }
}

/// Chooses prescaler and period count for `target_counts` clock ticks per
/// period (the clock frequency over the wanted frequency, truncated).
pub fn select_period(target_counts: u64, max: u32) -> (r: Result<(u32, Prescaler), TimerError>)
    ensures
        r == period_selection(target_counts, max),
{
    let p1 = saturate_u32(target_counts);
    let p4 = saturate_u32(target_counts / 4);
    let p16 = saturate_u32(target_counts / 16);
    let p256 = saturate_u32(target_counts / 256);
    let p1024 = saturate_u32(target_counts / 1024);
    if p1 < max {
        Ok((p1, Prescaler::PCLKD_1))
    } else if p4 < max {
        Ok((p4, Prescaler::PCLKD_4))
    } else if p16 < max {
        Ok((p16, Prescaler::PCLKD_16))
    } else if p256 < max {
        Ok((p256, Prescaler::PCLKD_256))
    } else if p1024 < max {
        Ok((p1024, Prescaler::PCLKD_1024))
    } else {
        Err(TimerError::InvalidFrequencySetting)
    }
}

/// The chosen period fits the counter and, divided clock ticks being
/// counted whole, a period lasts the target truncated to the divisor; no
/// smaller divisor of the list fits; the setting fails exactly when even the
/// largest divisor leaves a period count that does not fit.
pub proof fn lemma_period_selection(target_counts: u64, max: u32)
    ensures
        period_selection(target_counts, max) matches Ok((p, pre)) ==> {
            &&& p < max
            &&& p == period_for(target_counts, pre.spec_divisor())
            &&& p as int * pre.spec_divisor() <= target_counts
            &&& target_counts < (p as int + 1) * pre.spec_divisor()
            &&& pre != Prescaler::PCLKD_64
            &&& (pre.spec_divisor() > 1 ==> period_for(target_counts, 1) >= max)
            &&& (pre.spec_divisor() > 4 ==> period_for(target_counts, 4) >= max)
            &&& (pre.spec_divisor() > 16 ==> period_for(target_counts, 16) >= max)
            &&& (pre.spec_divisor() > 256 ==> period_for(target_counts, 256) >= max)
        },
        period_selection(target_counts, max) is Err <==> period_for(target_counts, 1024) >= max,
{
    let t = target_counts as int;
    assert(t / 1 >= t / 4 >= t / 16 >= t / 256 >= t / 1024) by (nonlinear_arith)
        requires
            t >= 0,
    ;
    if let Ok((p, pre)) = period_selection(target_counts, max) {
        let d = pre.spec_divisor() as int;
        assert(p < u32::MAX);
        assert(p == t / d);
        assert(p * d <= t && t < (p + 1) * d) by (nonlinear_arith)
            requires
                p == t / d,
                d > 0,
                t >= 0,
        ;
    }
}

/// The counters' widths: a 32-bit counter tops out at `u32::MAX` and a
/// 16-bit one at `0xFFFF`, so every target below the top is counted
/// undivided (prescaler PCLKD/1, period the target itself). Channels 0
/// and 1 have 32-bit counters, channels 2 to 7 16-bit ones.
pub proof fn lemma_counter_widths(target_counts: u64)
    ensures
        Bits32::spec_max() == 0xFFFF_FFFFu32,
        Bits16::spec_max() == 0xFFFFu32,
        <<Gpt0 as TimerInstance>::Width as TimerSize>::spec_max() == 0xFFFF_FFFFu32,
        <<Gpt1 as TimerInstance>::Width as TimerSize>::spec_max() == 0xFFFF_FFFFu32,
        <<Gpt2 as TimerInstance>::Width as TimerSize>::spec_max() == 0xFFFFu32,
        target_counts < 0xFFFF_FFFFu64 ==> period_selection(target_counts, Bits32::spec_max()) == Ok::<
            (u32, Prescaler),
            TimerError,
        >((target_counts as u32, Prescaler::PCLKD_1)),
        target_counts < 0xFFFFu64 ==> period_selection(target_counts, Bits16::spec_max()) == Ok::<
            (u32, Prescaler),
            TimerError,
        >((target_counts as u32, Prescaler::PCLKD_1)),
{
}

/// Sources that start, stop, clear or count a GPT timer. The values are bit
/// masks and may be or-ed together; the software source (bit 31) lets the
/// start, stop and clear registers act on the timer.
#[allow(non_camel_case_types)]
#[derive(Debug, Clone, Copy, PartialEq, Eq, Structural)]
pub enum GPTSourceT {
    /// No active event sources.
    NONE,
    /// GTETRGA rising edge.
    GTETRGA_RISING,
    /// GTETRGA falling edge.
    GTETRGA_FALLING,
    /// GTETRGB rising edge.
    GTETRGB_RISING,
    /// GTETRGB falling edge.
    GTETRGB_FALLING,
    /// GTIOCA rises while GTIOCB is low.
    GTIOCA_RISING_WHILE_GTIOCB_LOW,
    /// GTIOCA rises while GTIOCB is high.
    GTIOCA_RISING_WHILE_GTIOCB_HIGH,
    /// GTIOCA falls while GTIOCB is low.
    GTIOCA_FALLING_WHILE_GTIOCB_LOW,
    /// GTIOCA falls while GTIOCB is high.
    GTIOCA_FALLING_WHILE_GTIOCB_HIGH,
    /// GTIOCB rises while GTIOCA is low.
    GTIOCB_RISING_WHILE_GTIOCA_LOW,
    /// GTIOCB rises while GTIOCA is high.
    GTIOCB_RISING_WHILE_GTIOCA_HIGH,
    /// GTIOCB falls while GTIOCA is low.
    GTIOCB_FALLING_WHILE_GTIOCA_LOW,
    /// GTIOCB falls while GTIOCA is high.
    GTIOCB_FALLING_WHILE_GTIOCA_HIGH,
    /// ELC GPTA event.
    GPT_A,
    /// ELC GPTB event.
    GPT_B,
    /// ELC GPTC event.
    GPT_C,
    /// ELC GPTD event.
    GPT_D,
    /// ELC GPTE event.
    GPT_E,
    /// ELC GPTF event.
    GPT_F,
    /// ELC GPTG event.
    GPT_G,
    /// ELC GPTH event.
    GPT_H,
    /// Software source.
    SOFTWARE,
}

impl GPTSourceT {
    pub open spec fn spec_bits(self) -> u32 {
        match self {
            GPTSourceT::NONE => 0,
            GPTSourceT::GTETRGA_RISING => 1u32 << 0u32,
            GPTSourceT::GTETRGA_FALLING => 1u32 << 1u32,
            GPTSourceT::GTETRGB_RISING => 1u32 << 2u32,
            GPTSourceT::GTETRGB_FALLING => 1u32 << 3u32,
            GPTSourceT::GTIOCA_RISING_WHILE_GTIOCB_LOW => 1u32 << 8u32,
            GPTSourceT::GTIOCA_RISING_WHILE_GTIOCB_HIGH => 1u32 << 9u32,
            GPTSourceT::GTIOCA_FALLING_WHILE_GTIOCB_LOW => 1u32 << 10u32,
            GPTSourceT::GTIOCA_FALLING_WHILE_GTIOCB_HIGH => 1u32 << 11u32,
            GPTSourceT::GTIOCB_RISING_WHILE_GTIOCA_LOW => 1u32 << 12u32,
            GPTSourceT::GTIOCB_RISING_WHILE_GTIOCA_HIGH => 1u32 << 13u32,
            GPTSourceT::GTIOCB_FALLING_WHILE_GTIOCA_LOW => 1u32 << 14u32,
            GPTSourceT::GTIOCB_FALLING_WHILE_GTIOCA_HIGH => 1u32 << 15u32,
            GPTSourceT::GPT_A => 1u32 << 16u32,
            GPTSourceT::GPT_B => 1u32 << 17u32,
            GPTSourceT::GPT_C => 1u32 << 18u32,
            GPTSourceT::GPT_D => 1u32 << 19u32,
            GPTSourceT::GPT_E => 1u32 << 20u32,
            GPTSourceT::GPT_F => 1u32 << 21u32,
            GPTSourceT::GPT_G => 1u32 << 22u32,
            GPTSourceT::GPT_H => 1u32 << 23u32,
            GPTSourceT::SOFTWARE => 1u32 << 31u32,
        }
    }

    /// The source select register value of this source.
    pub fn bits(&self) -> (r: u32)
        ensures
            r == self.spec_bits(),
    {
        match self {
            GPTSourceT::NONE => 0,
            GPTSourceT::GTETRGA_RISING => 1u32 << 0u32,
            GPTSourceT::GTETRGA_FALLING => 1u32 << 1u32,
            GPTSourceT::GTETRGB_RISING => 1u32 << 2u32,
            GPTSourceT::GTETRGB_FALLING => 1u32 << 3u32,
            GPTSourceT::GTIOCA_RISING_WHILE_GTIOCB_LOW => 1u32 << 8u32,
            GPTSourceT::GTIOCA_RISING_WHILE_GTIOCB_HIGH => 1u32 << 9u32,
            GPTSourceT::GTIOCA_FALLING_WHILE_GTIOCB_LOW => 1u32 << 10u32,
            GPTSourceT::GTIOCA_FALLING_WHILE_GTIOCB_HIGH => 1u32 << 11u32,
            GPTSourceT::GTIOCB_RISING_WHILE_GTIOCA_LOW => 1u32 << 12u32,
            GPTSourceT::GTIOCB_RISING_WHILE_GTIOCA_HIGH => 1u32 << 13u32,
            GPTSourceT::GTIOCB_FALLING_WHILE_GTIOCA_LOW => 1u32 << 14u32,
            GPTSourceT::GTIOCB_FALLING_WHILE_GTIOCA_HIGH => 1u32 << 15u32,
            GPTSourceT::GPT_A => 1u32 << 16u32,
            GPTSourceT::GPT_B => 1u32 << 17u32,
            GPTSourceT::GPT_C => 1u32 << 18u32,
            GPTSourceT::GPT_D => 1u32 << 19u32,
            GPTSourceT::GPT_E => 1u32 << 20u32,
            GPTSourceT::GPT_F => 1u32 << 21u32,
            GPTSourceT::GPT_G => 1u32 << 22u32,
            GPTSourceT::GPT_H => 1u32 << 23u32,
            GPTSourceT::SOFTWARE => 1u32 << 31u32,
        }
    }
}

// ---------------------------------------------------------------------------
// GPT register fields
// ---------------------------------------------------------------------------
/// GTCR mode field (bits 16 to 18).
pub const GTCR_MD_MASK: u32 = 0x0007_0000;

/// GTCR prescaler field (bits 24 to 26).
pub const GTCR_TPCS_MASK: u32 = 0x0700_0000;

/// GTST counter overflow flag (bit 6).
pub const GTST_TCFPO: u32 = 0x40;

/// GTUDDTYC count direction bit (bit 0).
pub const GTUDDTYC_UD: u32 = 1;

/// GTCR written from its reset value (0) with the mode field set to `md`.
pub open spec fn gtcr_with_mode(md: u8) -> u32 {
    ((md & 7u8) as u32) << 16u32
}

/// GTCR with its prescaler field replaced by `tpcs`.
pub open spec fn gtcr_with_prescaler(gtcr: u32, tpcs: u8) -> u32 {
    (gtcr & !GTCR_TPCS_MASK) | (((tpcs & 7u8) as u32) << 24u32)
}

/// The bit of GPT channel `ch` in the shared start, stop and clear registers.
pub open spec fn channel_bit(ch: u8) -> u32 {
    1u32 << (ch as u32)
}

fn mode_field(md: u8) -> (r: u32)
    ensures
        r == gtcr_with_mode(md),
{
    ((md & 7) as u32) << 16
}

fn prescaler_field(gtcr: u32, tpcs: u8) -> (r: u32)
    ensures
        r == gtcr_with_prescaler(gtcr, tpcs),
{
    (gtcr & !GTCR_TPCS_MASK) | (((tpcs & 7) as u32) << 24)
}

/// The GPT registers that configuring a periodic timer writes.
pub struct GptConfigRegs {
    /// Control register (modified: prescaler field).
    pub gtcr: u32,
    /// Count direction and duty setting register (written).
    pub gtuddtyc: u32,
    /// Start source select register (written).
    pub gtssr: u32,
    /// Stop source select register (written).
    pub gtpsr: u32,
    /// Clear source select register (written).
    pub gtcsr: u32,
    /// Cycle setting register (written).
    pub gtpr: u32,
    /// Cycle setting buffer register (written).
    pub gtpbr: u32,
}

/// Settings of a periodic timer. The frequency is given as the number of
/// clock ticks per period (`MCU_FREQ` over the frequency, truncated).
pub struct PeriodicCounts {
    pub gtssr: GPTSourceT,
    pub gtpsr: GPTSourceT,
    pub gtcsr: GPTSourceT,
    pub count_dir: CountDir,
    pub target_counts: u64,
}

/// General purpose timer `T`, configuration state `CFG`, counting mode `MODE`.
pub struct GPTimer<T: TimerInstance, CFG, MODE> {
    _instance: PhantomData<T>,
    _cfg: PhantomData<CFG>,
    _mode: PhantomData<MODE>,
}

impl<T: TimerInstance, CFG, MODE> GPTimer<T, CFG, MODE> {
    pub fn new() -> Self {
        GPTimer { _instance: PhantomData, _cfg: PhantomData, _mode: PhantomData }
    }

    /// Writes GTCR with the mode field set to the counting mode `pmode`.
    fn _set_periodic_mode(&self, gtcr: &mut u32, pmode: TimerMode)
        ensures
            *final(gtcr) == gtcr_with_mode(pmode.spec_bits()),
    {
        *gtcr = mode_field(pmode.bits());
    }

    /// Writes GTCR with the mode field set to the wave shape `pwmmode`.
    fn _set_pwm_mode(&self, gtcr: &mut u32, pwmmode: PwmMode)
        ensures
            *final(gtcr) == gtcr_with_mode(pwmmode.spec_bits()),
    {
        *gtcr = mode_field(pwmmode.bits());
    }

    /// Writes the cycle and cycle buffer registers.
    fn _set_period_count(&self, gtpr: &mut u32, gtpbr: &mut u32, count: u32)
        ensures
            *final(gtpr) == count,
            *final(gtpbr) == count,
    {
        *gtpr = count;
        *gtpbr = count;
    }

    fn _set_prescaler(&self, gtcr: &mut u32, prescaler: Prescaler)
        ensures
            *final(gtcr) == gtcr_with_prescaler(*old(gtcr), prescaler.spec_bits()),
    {
        *gtcr = prescaler_field(*gtcr, prescaler.bits());
    }

    /// Writes GTUDDTYC from its reset value with the direction bit set as
    /// `dir` says.
    fn _set_count_dir(&self, gtuddtyc: &mut u32, dir: CountDir)
        ensures
            *final(gtuddtyc) == (if dir == CountDir::Up {
                GTUDDTYC_UD
            } else {
                0
            }),
    {
        let up: bool = dir.into();
        *gtuddtyc = if up {
            GTUDDTYC_UD
        } else {
            0
        };
    }

    fn _set_source(&self, reg: &mut u32, src: GPTSourceT)
        ensures
            *final(reg) == src.spec_bits(),
    {
        *reg = src.bits();
    }

    /// Sets the channel's bit in the start register.
    fn _start(&self, gtstr: &mut u32)
        ensures
            *final(gtstr) == *old(gtstr) | channel_bit(T::spec_channel()),
    {
        *gtstr = *gtstr | (1u32 << (T::channel() as u32));
    }

    /// Sets the channel's bit in the stop register.
    fn _stop(&self, gtstp: &mut u32)
        ensures
            *final(gtstp) == *old(gtstp) | channel_bit(T::spec_channel()),
    {
        *gtstp = *gtstp | (1u32 << (T::channel() as u32));
    }

    /// Writes the channel's bit alone to the clear register.
    fn _clear(&self, gtclr: &mut u32)
        ensures
            *final(gtclr) == channel_bit(T::spec_channel()),
    {
        *gtclr = 1u32 << (T::channel() as u32);
    }

    fn _has_overflowed(&self, gtst: u32) -> (r: bool)
        ensures
            r == (gtst & GTST_TCFPO != 0),
    {
        gtst & GTST_TCFPO != 0
    }

    fn _clear_overflow_flag(&self, gtst: &mut u32)
        ensures
            *final(gtst) == *old(gtst) & !GTST_TCFPO,
    {
        *gtst = *gtst & !GTST_TCFPO;
    }

    /// Sets cycle registers and prescaler for `target_counts` clock ticks per
    /// period, or reports that no prescaler fits (and writes nothing).
    fn set_period_counts(&self, regs: &mut GptConfigRegs, target_counts: u64) -> (r: Result<
        (),
        TimerError,
    >)
        ensures
            r is Ok <==> period_selection(target_counts, T::Width::spec_max()) is Ok,
            period_selection(target_counts, T::Width::spec_max()) matches Ok((p, pre)) ==> {
                &&& final(regs).gtpr == p
                &&& final(regs).gtpbr == p
                &&& final(regs).gtcr == gtcr_with_prescaler(old(regs).gtcr, pre.spec_bits())
            },
            r is Err ==> *final(regs) == *old(regs),
            final(regs).gtuddtyc == old(regs).gtuddtyc,
            final(regs).gtssr == old(regs).gtssr,
            final(regs).gtpsr == old(regs).gtpsr,
            final(regs).gtcsr == old(regs).gtcsr,
    {
        let max = T::Width::max_value();
        match select_period(target_counts, max) {
            Ok((period_counts, prescaler)) => {
                self._set_period_count(&mut regs.gtpr, &mut regs.gtpbr, period_counts);
                self._set_prescaler(&mut regs.gtcr, prescaler);
                Ok(())
            },
            Err(e) => Err(e),
        }
    }

    /// The timer's channel number.
    pub fn get_channel(&self) -> (r: u8)
        ensures
            r == T::spec_channel(),
            r < 8,
    {
        T::channel()
    }
}

impl<T: TimerInstance> GPTimer<T, Unconfigured, NotSet> {
    /// Sets the mode to periodic (sawtooth) and changes the typestate.
    pub fn into_periodic(self, gtcr: &mut u32) -> (r: GPTimer<T, Unconfigured, Periodic>)
        ensures
            *final(gtcr) == gtcr_with_mode(TimerMode::PERIODIC.spec_bits()),
    {
        self._set_periodic_mode(gtcr, TimerMode::PERIODIC);
        GPTimer { _instance: PhantomData, _cfg: PhantomData, _mode: PhantomData }
    }

    /// Sets the mode to symmetric triangle PWM and changes the typestate.
    pub fn into_pwm(self, gtcr: &mut u32) -> (r: GPTimer<T, Unconfigured, Pwm>)
        ensures
            *final(gtcr) == gtcr_with_mode(PwmMode::TRIANGLE_WAVE_SYMMETRIC_PWM.spec_bits()),
    {
        self._set_pwm_mode(gtcr, PwmMode::TRIANGLE_WAVE_SYMMETRIC_PWM);
        GPTimer { _instance: PhantomData, _cfg: PhantomData, _mode: PhantomData }
    }
}

impl<T: TimerInstance> GPTimer<T, Unconfigured, Periodic> {
    /// Configures count direction, the three sources and the frequency.
    /// The frequency must be one that a prescaler can reach.
    pub fn configure(self, cfg: PeriodicCounts, regs: &mut GptConfigRegs) -> (r: GPTimer<
        T,
        Configured,
        Periodic,
    >)
        requires
            period_selection(cfg.target_counts, T::Width::spec_max()) is Ok,
        ensures
            final(regs).gtuddtyc == (if cfg.count_dir == CountDir::Up {
                GTUDDTYC_UD
            } else {
                0
            }),
            final(regs).gtssr == cfg.gtssr.spec_bits(),
            final(regs).gtpsr == cfg.gtpsr.spec_bits(),
            final(regs).gtcsr == cfg.gtcsr.spec_bits(),
            period_selection(cfg.target_counts, T::Width::spec_max()) matches Ok((p, pre)) ==> {
                &&& final(regs).gtpr == p
                &&& final(regs).gtpbr == p
                &&& final(regs).gtcr == gtcr_with_prescaler(old(regs).gtcr, pre.spec_bits())
            },
    {
        self._set_count_dir(&mut regs.gtuddtyc, cfg.count_dir);
        self._set_source(&mut regs.gtssr, cfg.gtssr);
        self._set_source(&mut regs.gtpsr, cfg.gtpsr);
        self._set_source(&mut regs.gtcsr, cfg.gtcsr);
        let res = self.set_period_counts(regs, cfg.target_counts);
        GPTimer { _instance: PhantomData, _cfg: PhantomData, _mode: PhantomData }
    }
}

impl<T: TimerInstance, MODE> GPTimer<T, Configured, MODE> {
    /// Starts the counter: sets the channel's bit in GTSTR.
    pub fn start(&self, gtstr: &mut u32)
        ensures
            *final(gtstr) == *old(gtstr) | channel_bit(T::spec_channel()),
    {
        self._start(gtstr);
    }

    /// Stops the counter: sets the channel's bit in GTSTP.
    pub fn stop(&self, gtstp: &mut u32)
        ensures
            *final(gtstp) == *old(gtstp) | channel_bit(T::spec_channel()),
    {
        self._stop(gtstp);
    }

    /// Clears the counter: writes the channel's bit to GTCLR.
    pub fn clear(&self, gtclr: &mut u32)
        ensures
            *final(gtclr) == channel_bit(T::spec_channel()),
    {
        self._clear(gtclr);
    }

    /// Whether the overflow flag (TCFPO) is set in GTST.
    pub fn has_overflowed(&self, gtst: u32) -> (r: bool)
        ensures
            r == (gtst & GTST_TCFPO != 0),
    {
        self._has_overflowed(gtst)
    }

    /// Clears the overflow flag in GTST.
    pub fn clear_overflow_flag(&self, gtst: &mut u32)
        ensures
            *final(gtst) == *old(gtst) & !GTST_TCFPO,
    {
        self._clear_overflow_flag(gtst);
    }

    /// Stops and clears the timer and hands it back unconfigured.
    pub fn release(self, gtstp: &mut u32, gtclr: &mut u32) -> (r: GPTimer<T, Unconfigured, NotSet>)
        ensures
            *final(gtstp) == *old(gtstp) | channel_bit(T::spec_channel()),
            *final(gtclr) == channel_bit(T::spec_channel()),
    {
        self.stop(gtstp);
        self.clear(gtclr);
        GPTimer { _instance: PhantomData, _cfg: PhantomData, _mode: PhantomData }
    }
}

/// Starting a channel sets its bit and no other; clearing the flag after an
/// overflow leaves the timer reporting no overflow.
pub proof fn lemma_channel_bits(v: u32, ch: u8, other: u8)
    requires
        ch < 8,
        other < 8,
    ensures
        (v | channel_bit(ch)) & channel_bit(ch) != 0,
        ch != other ==> ((v | channel_bit(ch)) & channel_bit(other) != 0) == (v & channel_bit(
            other,
        ) != 0),
        (v & !GTST_TCFPO) & GTST_TCFPO == 0,
{
    let c = ch as u32;
    let o = other as u32;
    assert((v | (1u32 << c)) & (1u32 << c) != 0) by (bit_vector)
        requires
            c < 8,
    ;
    assert(c != o ==> (((v | (1u32 << c)) & (1u32 << o) != 0) == (v & (1u32 << o) != 0)))
        by (bit_vector)
        requires
            c < 8,
            o < 8,
    ;
    assert((v & !0x40u32) & 0x40u32 == 0) by (bit_vector);
}

// ---------------------------------------------------------------------------
// AGT timers
// ---------------------------------------------------------------------------
/// Count source of an AGT timer.
#[allow(non_camel_case_types)]
#[derive(Debug, Clone, Copy, PartialEq, Eq, Structural)]
pub enum AGTPrescaler {
    PCLKD_1,
    PCLKD_8,
    PCLKD_2,
    Divided_AGTLCLK,
    Underflow_AGT0,
    Divided_AGTSCLK,
}

impl AGTPrescaler {
    pub open spec fn spec_bits(self) -> u8 {
        match self {
            AGTPrescaler::PCLKD_1 => 0,
            AGTPrescaler::PCLKD_8 => 1,
            AGTPrescaler::PCLKD_2 => 3,
            AGTPrescaler::Divided_AGTLCLK => 4,
            AGTPrescaler::Underflow_AGT0 => 5,
            AGTPrescaler::Divided_AGTSCLK => 6,
        }
    }

    /// The value of the TCK field that selects this count source.
    pub fn bits(&self) -> (r: u8)
        ensures
            r == self.spec_bits(),
    {
        match self {
            AGTPrescaler::PCLKD_1 => 0,
            AGTPrescaler::PCLKD_8 => 1,
            AGTPrescaler::PCLKD_2 => 3,
            AGTPrescaler::Divided_AGTLCLK => 4,
            AGTPrescaler::Underflow_AGT0 => 5,
            AGTPrescaler::Divided_AGTSCLK => 6,
        }
    }
}

/// The TCK codes of the AGT count sources are the hardware's: PCLKB/1 is
/// 0, PCLKB/8 is 1, PCLKB/2 is 3, AGTLCLK is 4, AGT0 underflow is 5 and
/// AGTSCLK is 6; distinct sources have distinct codes, and each code fits
/// the three-bit field.
pub proof fn lemma_agt_source_codes(a: AGTPrescaler, b: AGTPrescaler)
    ensures
        AGTPrescaler::PCLKD_1.spec_bits() == 0,
        AGTPrescaler::PCLKD_8.spec_bits() == 1,
        AGTPrescaler::PCLKD_2.spec_bits() == 3,
        AGTPrescaler::Divided_AGTLCLK.spec_bits() == 4,
        AGTPrescaler::Underflow_AGT0.spec_bits() == 5,
        AGTPrescaler::Divided_AGTSCLK.spec_bits() == 6,
        a.spec_bits() == b.spec_bits() ==> a == b,
        a.spec_bits() < 8,
{
}

/// AGT0.
pub struct AGTimer0;

/// AGT1.
pub struct AGTimer1;

/// An AGT channel: its counter width and channel number (0 or 1).
pub trait AGTimerInstance {
    type Width: TimerSize;

    spec fn spec_channel() -> u8;

    fn channel() -> (r: u8)
        ensures
            r == Self::spec_channel(),
            r < 2,
    ;
}

impl AGTimerInstance for AGTimer0 {
    type Width = Bits16;

    open spec fn spec_channel() -> u8 {
        0
    }

    fn channel() -> (r: u8) {
        0
    }
}

impl AGTimerInstance for AGTimer1 {
    type Width = Bits16;

    open spec fn spec_channel() -> u8 {
        1
    }

    fn channel() -> (r: u8) {
        1
    }
}

impl TimerExt for AGTimer0 {
    type Timer = AGTimer<AGTimer0, Unconfigured>;

    fn into_timer(self) -> AGTimer<AGTimer0, Unconfigured> {
        AGTimer::new()
    }
}

impl TimerExt for AGTimer1 {
    type Timer = AGTimer<AGTimer1, Unconfigured>;

    fn into_timer(self) -> AGTimer<AGTimer1, Unconfigured> {
        AGTimer::new()
    }
}

/// AGTCR count start bit (bit 0).
pub const AGTCR_TSTART: u8 = 0x01;

/// AGTCR count forced stop bit (bit 2).
pub const AGTCR_TSTOP: u8 = 0x04;

/// AGTCR underflow flag (bit 5).
pub const AGTCR_TUNDF: u8 = 0x20;

/// AGTCR flags that a write of zero clears (bits 4 to 7); a read-modify-write
/// writes them as ones so that it leaves them alone.
pub const AGTCR_FLAGS: u8 = 0xF0;

/// AGTMR1 count source field (bits 4 to 6).
pub const AGTMR1_TCK_MASK: u8 = 0x70;

/// AGTCR after a read-modify-write that sets the bits `set` and clears the
/// bits `clear`.
pub open spec fn agtcr_modified(agtcr: u8, set: u8, clear: u8) -> u8 {
    ((agtcr | AGTCR_FLAGS) | set) & !clear
}

/// Settings of an AGT timer: reload count and count source.
pub struct AGTCfg {
    pub counts: u16,
    pub prescaler: AGTPrescaler,
}

/// AGT timer `T` in configuration state `CFG`.
pub struct AGTimer<T: AGTimerInstance, CFG> {
    _instance: PhantomData<T>,
    _cfg: PhantomData<CFG>,
}

impl<T: AGTimerInstance, CFG> AGTimer<T, CFG> {
    pub fn new() -> Self {
        AGTimer { _instance: PhantomData, _cfg: PhantomData }
    }

    /// Writes the counter reload register.
    fn _set_period_count(&self, agt: &mut u16, count: u16)
        ensures
            *final(agt) == count,
    {
        *agt = count;
    }

    /// Replaces the count source field of AGTMR1.
    fn _set_prescaler(&self, agtmr1: &mut u8, prescaler: AGTPrescaler)
        ensures
            *final(agtmr1) == (*old(agtmr1) & !AGTMR1_TCK_MASK) | ((prescaler.spec_bits() & 7u8)
                << 4u8),
    {
        *agtmr1 = (*agtmr1 & !AGTMR1_TCK_MASK) | ((prescaler.bits() & 7) << 4);
    }

    fn _start(&self, agtcr: &mut u8)
        ensures
            *final(agtcr) == agtcr_modified(*old(agtcr), AGTCR_TSTART, 0),
    {
        *agtcr = ((*agtcr | AGTCR_FLAGS) | AGTCR_TSTART) & !0u8;
    }

    /// Forces the count to stop: sets TSTOP and clears TSTART.
    fn _stop(&self, agtcr: &mut u8)
        ensures
            *final(agtcr) == agtcr_modified(*old(agtcr), AGTCR_TSTOP, AGTCR_TSTART),
    {
        *agtcr = ((*agtcr | AGTCR_FLAGS) | AGTCR_TSTOP) & !AGTCR_TSTART;
    }

    /// Reloads the counter with its largest value.
    fn _clear(&self, agt: &mut u16)
        ensures
            *final(agt) == 0xFFFF,
    {
        *agt = 0xFFFF;
    }

    fn _has_underflowed(&self, agtcr: u8) -> (r: bool)
        ensures
            r == (agtcr & AGTCR_TUNDF != 0),
    {
        agtcr & AGTCR_TUNDF != 0
    }

    fn _clear_underflow_flag(&self, agtcr: &mut u8)
        ensures
            *final(agtcr) == agtcr_modified(*old(agtcr), 0, AGTCR_TUNDF),
    {
        *agtcr = ((*agtcr | AGTCR_FLAGS) | 0u8) & !AGTCR_TUNDF;
    }
}

impl<T: AGTimerInstance> AGTimer<T, Unconfigured> {
    /// Writes the reload count and the count source.
    pub fn configure(self, cfg: AGTCfg, agt: &mut u16, agtmr1: &mut u8) -> (r: AGTimer<
        T,
        Configured,
    >)
        ensures
            *final(agt) == cfg.counts,
            *final(agtmr1) == (*old(agtmr1) & !AGTMR1_TCK_MASK) | ((cfg.prescaler.spec_bits()
                & 7u8) << 4u8),
            (*final(agtmr1) & AGTMR1_TCK_MASK) >> 4u8 == cfg.prescaler.spec_bits(),
            *final(agtmr1) & !AGTMR1_TCK_MASK == *old(agtmr1) & !AGTMR1_TCK_MASK,
    {
        let m = *agtmr1;
        let c = cfg.prescaler.bits();
        proof {
            lemma_agt_source_codes(cfg.prescaler, cfg.prescaler);
        }
        assert(c < 8 ==> (((m & !0x70u8) | ((c & 7u8) << 4u8)) & 0x70u8) >> 4u8 == c && ((m
            & !0x70u8) | ((c & 7u8) << 4u8)) & !0x70u8 == m & !0x70u8) by (bit_vector);
        self._set_period_count(agt, cfg.counts);
        self._set_prescaler(agtmr1, cfg.prescaler);
        AGTimer { _instance: PhantomData, _cfg: PhantomData }
    }
}

impl<T: AGTimerInstance> AGTimer<T, Configured> {
    /// Starts counting: sets TSTART.
    pub fn start(&self, agtcr: &mut u8)
        ensures
            *final(agtcr) == agtcr_modified(*old(agtcr), AGTCR_TSTART, 0),
    {
        self._start(agtcr);
    }

    /// Stops counting: writes TSTOP (forced stop) with TSTART cleared, so
    /// that the count is halted and TSTART reads 0.
    pub fn stop(&self, agtcr: &mut u8)
        ensures
            *final(agtcr) == agtcr_modified(*old(agtcr), AGTCR_TSTOP, AGTCR_TSTART),
    {
        self._stop(agtcr);
    }

    /// Reloads the counter with 0xFFFF.
    pub fn clear(&self, agt: &mut u16)
        ensures
            *final(agt) == 0xFFFF,
    {
        self._clear(agt);
    }

    /// Whether the underflow flag (TUNDF) is set.
    pub fn has_underflowed(&self, agtcr: u8) -> (r: bool)
        ensures
            r == (agtcr & AGTCR_TUNDF != 0),
    {
        self._has_underflowed(agtcr)
    }

    /// Clears the underflow flag.
    pub fn clear_underflow_flag(&self, agtcr: &mut u8)
        ensures
            *final(agtcr) == agtcr_modified(*old(agtcr), 0, AGTCR_TUNDF),
    {
        self._clear_underflow_flag(agtcr);
    }

    /// Stops and clears the timer and hands it back unconfigured.
    pub fn release(self, agtcr: &mut u8, agt: &mut u16) -> (r: AGTimer<T, Unconfigured>)
        ensures
            *final(agtcr) == agtcr_modified(*old(agtcr), AGTCR_TSTOP, AGTCR_TSTART),
            *final(agt) == 0xFFFF,
    {
        self.stop(agtcr);
        self.clear(agt);
        AGTimer { _instance: PhantomData, _cfg: PhantomData }
    }
}

/// Clearing the underflow flag leaves the timer reporting no underflow and
/// keeps the other flags, which a zero write would have cleared, as they
/// were; starting sets the start bit and leaves the flags as they were too;
/// stopping sets the forced stop bit, clears the start bit and keeps the
/// flags.
pub proof fn lemma_agtcr_flags(v: u8)
    ensures
        agtcr_modified(v, 0, AGTCR_TUNDF) & AGTCR_TUNDF == 0,
        agtcr_modified(v, 0, AGTCR_TUNDF) & (AGTCR_FLAGS & !AGTCR_TUNDF) == AGTCR_FLAGS & !AGTCR_TUNDF,
        agtcr_modified(v, AGTCR_TSTART, 0) & AGTCR_TSTART == AGTCR_TSTART,
        agtcr_modified(v, AGTCR_TSTOP, AGTCR_TSTART) & AGTCR_TSTOP == AGTCR_TSTOP,
        agtcr_modified(v, AGTCR_TSTOP, AGTCR_TSTART) & AGTCR_TSTART == 0,
        agtcr_modified(v, AGTCR_TSTOP, AGTCR_TSTART) & AGTCR_FLAGS == AGTCR_FLAGS,
{
    assert({
        &&& (((v | 0xF0u8) | 4u8) & !1u8) & 4u8 == 4u8
        &&& (((v | 0xF0u8) | 4u8) & !1u8) & 1u8 == 0u8
        &&& (((v | 0xF0u8) | 4u8) & !1u8) & 0xF0u8 == 0xF0u8
        &&& (((v | 0xF0u8) | 0u8) & !0x20u8) & 0x20u8 == 0
        &&& (((v | 0xF0u8) | 0u8) & !0x20u8) & (0xF0u8 & !0x20u8) == (0xF0u8 & !0x20u8)
        &&& (((v | 0xF0u8) | 1u8) & !0u8) & 1u8 == 1u8
    }) by (bit_vector);
}

} // verus!
