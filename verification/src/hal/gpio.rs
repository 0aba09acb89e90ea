//! Typestate GPIO pins for the RA4M1.
//!
//! Every pin is configured through its PmnPFS register. The functions here
//! compute what that register holds after an operation: a caller reads the
//! register, hands its value to the function through the `pfs` parameter and
//! writes the updated value back. Functions that only inspect the pin take
//! the value that was read.
use core::marker::PhantomData;
use vstd::prelude::*;

use crate::hal::gpio::erased::{AnyPin, Dynamic, DynamicPinErased};

pub mod erased;
pub mod unor4;

verus! {

// ---------------------------------------------------------------------------
// PmnPFS register layout
// ---------------------------------------------------------------------------
/// Port output data (bit 0).
pub const PFS_PODR: u32 = 0x0000_0001;

/// Port input data (bit 1).
pub const PFS_PIDR: u32 = 0x0000_0002;

/// Port direction, set for output (bit 2).
pub const PFS_PDR: u32 = 0x0000_0004;

/// Pull-up control (bit 4).
pub const PFS_PCR: u32 = 0x0000_0010;

/// N-channel open drain control (bit 6).
pub const PFS_NCODR: u32 = 0x0000_0040;

/// Peripheral mode (bit 16).
pub const PFS_PMR: u32 = 0x0001_0000;

/// Peripheral select field (bits 24 to 28).
pub const PFS_PSEL_MASK: u32 = 0x1F00_0000;

/// Base address of the PmnPFS register block.
pub const PFS_BASE_ADDR: usize = 0x4004_0800;

/// Distance between the PFS registers of two neighbouring pins.
pub const PIN_PFS_OFFSET: usize = 0x04;

/// Distance between the PFS registers of two neighbouring ports.
pub const PORT_PFS_OFFSET: usize = 0x40;

/// Write protect register (PWPR): PmnPFS write enable (bit 6).
pub const PWPR_PFSWE: u8 = 0x40;

/// Write protect register (PWPR): PFSWE write disable (bit 7).
pub const PWPR_B0WI: u8 = 0x80;

/// Whether the single-bit field `mask` is set in `v`.
pub open spec fn bit_is_set(v: u32, mask: u32) -> bool {
    v & mask != 0
}

/// `v` with the single-bit field `mask` set to `on`.
pub open spec fn with_bit(v: u32, mask: u32, on: bool) -> u32 {
    if on {
        v | mask
    } else {
        v & !mask
    }
}

/// Writes one bit field, as a register `modify` with `bit(on)` does.
pub fn write_bit(v: u32, mask: u32, on: bool) -> (r: u32)
    ensures
        r == with_bit(v, mask, on),
{
    if on {
        v | mask
    } else {
        v & !mask
    }
}

/// Setting a single bit field makes it read back as set and leaves every
/// other single bit field as it was.
pub proof fn lemma_with_bit(v: u32, i: u32, j: u32, on: bool)
    requires
        i < 32,
        j < 32,
    ensures
        bit_is_set(with_bit(v, 1u32 << i, on), 1u32 << i) == on,
        i != j ==> bit_is_set(with_bit(v, 1u32 << i, on), 1u32 << j) == bit_is_set(v, 1u32 << j),
{
    assert(bit_is_set(with_bit(v, 1u32 << i, on), 1u32 << i) == on) by (bit_vector)
        requires
            i < 32,
    ;
    assert(i != j ==> bit_is_set(with_bit(v, 1u32 << i, on), 1u32 << j) == bit_is_set(
        v,
        1u32 << j,
    )) by (bit_vector)
        requires
            i < 32,
            j < 32,
    ;
}

/// Address of the PmnPFS register of pin `n` on port `p`.
pub open spec fn pfs_addr(p: u8, n: u8) -> int {
    PFS_BASE_ADDR + PORT_PFS_OFFSET * p + PIN_PFS_OFFSET * n
}

/// PWPR after the unlock sequence: B0WI cleared, then PFSWE set.
pub open spec fn pwpr_unlocked(pwpr: u8) -> u8 {
    (pwpr & !PWPR_B0WI) | PWPR_PFSWE
}

/// PWPR after the lock sequence: PFSWE cleared, then B0WI set.
pub open spec fn pwpr_locked(pwpr: u8) -> u8 {
    (pwpr & !PWPR_PFSWE) | PWPR_B0WI
}

/// Unlocks writes to the PmnPFS registers: clears B0WI, then sets PFSWE in
/// the write protect register `pwpr`.
pub fn unlock_pmnpfs_register(pwpr: &mut u8)
    ensures
        *final(pwpr) == pwpr_unlocked(*old(pwpr)),
        *final(pwpr) & PWPR_PFSWE == PWPR_PFSWE,
        *final(pwpr) & PWPR_B0WI == 0,
{
    let v: u8 = *pwpr;
    *pwpr = *pwpr & !PWPR_B0WI;
    *pwpr = *pwpr | PWPR_PFSWE;
    assert(((v & !0x80u8) | 0x40u8) & 0x40u8 == 0x40u8) by (bit_vector);
    assert(((v & !0x80u8) | 0x40u8) & 0x80u8 == 0u8) by (bit_vector);
}

/// Locks writes to the PmnPFS registers again: clears PFSWE, then sets B0WI
/// in the write protect register `pwpr`.
pub fn lock_pmnpfs_register(pwpr: &mut u8)
    ensures
        *final(pwpr) == pwpr_locked(*old(pwpr)),
        *final(pwpr) & PWPR_PFSWE == 0,
        *final(pwpr) & PWPR_B0WI == PWPR_B0WI,
{
    let v: u8 = *pwpr;
    *pwpr = *pwpr & !PWPR_PFSWE;
    *pwpr = *pwpr | PWPR_B0WI;
    assert(((v & !0x40u8) | 0x80u8) & 0x40u8 == 0u8) by (bit_vector);
    assert(((v & !0x40u8) | 0x80u8) & 0x80u8 == 0x80u8) by (bit_vector);
}

/// Locking after unlocking leaves the write protect register as the reset
/// leaves it (B0WI set, PFSWE clear) whatever its other bits were, and in
/// particular gives the reset value back when it started there.
pub proof fn lemma_lock_undoes_unlock(pwpr: u8)
    ensures
        pwpr_locked(pwpr_unlocked(pwpr)) == (pwpr & !0xC0u8) | PWPR_B0WI,
        pwpr == 0x80 ==> pwpr_locked(pwpr_unlocked(pwpr)) == pwpr,
{
    assert(((((pwpr & !0x80u8) | 0x40u8) & !0x40u8) | 0x80u8) == (pwpr & !0xC0u8) | 0x80u8)
        by (bit_vector);
    assert(pwpr == 0x80 ==> ((((pwpr & !0x80u8) | 0x40u8) & !0x40u8) | 0x80u8) == pwpr)
        by (bit_vector);
}

// ---------------------------------------------------------------------------
// Mode descriptions
// ---------------------------------------------------------------------------
/// Port direction of a pin.
#[derive(Clone, Copy, Debug, PartialEq, Eq, Structural)]
pub enum Modes {
    Input,
    Output,
}

impl Modes {
    /// The direction bit this mode writes: set for output.
    pub fn bit(&self) -> (r: bool)
        ensures
            r == (*self == Modes::Output),
    {
        match self {
            Modes::Input => false,
            Modes::Output => true,
        }
    }
}

impl From<Modes> for bool {
    fn from(value: Modes) -> (r: bool) {
        match value {
            Modes::Input => false,
            Modes::Output => true,
        }
    }
}

impl vstd::std_specs::convert::FromSpecImpl<Modes> for bool {
    open spec fn obeys_from_spec() -> bool {
        true
    }

    open spec fn from_spec(v: Modes) -> bool {
        v == Modes::Output
    }
}

/// Output driver type.
#[derive(Clone, Copy, Debug, PartialEq, Eq, Structural)]
pub enum OutputType {
    PushPull,
    OpenDrain,
}

impl OutputType {
    /// The open drain bit this type writes: set for open drain.
    pub fn bit(&self) -> (r: bool)
        ensures
            r == (*self == OutputType::OpenDrain),
    {
        match self {
            OutputType::PushPull => false,
            OutputType::OpenDrain => true,
        }
    }
}

impl From<OutputType> for bool {
    fn from(value: OutputType) -> (r: bool) {
        match value {
            OutputType::PushPull => false,
            OutputType::OpenDrain => true,
        }
    }
}

impl vstd::std_specs::convert::FromSpecImpl<OutputType> for bool {
    open spec fn obeys_from_spec() -> bool {
        true
    }

    open spec fn from_spec(v: OutputType) -> bool {
        v == OutputType::OpenDrain
    }
}

/// Drain configuration.
#[derive(Debug, Clone, Copy, PartialEq, Eq, Structural)]
pub enum Drain {
    /// CMOS
    Cmos,
    /// NMOS
    Open,
}

impl From<Drain> for bool {
    fn from(value: Drain) -> (r: bool) {
        match value {
            Drain::Cmos => false,
            Drain::Open => true,
        }
    }
}

impl vstd::std_specs::convert::FromSpecImpl<Drain> for bool {
    open spec fn obeys_from_spec() -> bool {
        true
    }

    open spec fn from_spec(v: Drain) -> bool {
        v == Drain::Open
    }
}

/// Pull resistor setting (the RA4M1 only has pull-ups).
#[derive(Debug, Clone, Copy, PartialEq, Eq, Structural)]
pub enum Pull {
    /// Floating
    Floating,
    /// Pull-up
    Up,
}

impl Pull {
    /// The pull-up bit this setting writes.
    pub fn bit(&self) -> (r: bool)
        ensures
            r == (*self == Pull::Up),
    {
        match self {
            Pull::Floating => false,
            Pull::Up => true,
        }
    }
}

impl From<Pull> for bool {
    fn from(value: Pull) -> (r: bool) {
        match value {
            Pull::Floating => false,
            Pull::Up => true,
        }
    }
}

impl vstd::std_specs::convert::FromSpecImpl<Pull> for bool {
    open spec fn obeys_from_spec() -> bool {
        true
    }

    open spec fn from_spec(v: Pull) -> bool {
        v == Pull::Up
    }
}

/// Logic level of a digital output.
#[derive(Debug, Clone, Copy, PartialEq, Eq, Structural)]
pub enum PinState {
    Low,
    High,
}

impl From<bool> for PinState {
    fn from(value: bool) -> (r: PinState) {
        if value {
            PinState::High
        } else {
            PinState::Low
        }
    }
}

impl vstd::std_specs::convert::FromSpecImpl<bool> for PinState {
    open spec fn obeys_from_spec() -> bool {
        true
    }

    open spec fn from_spec(v: bool) -> PinState {
        if v {
            PinState::High
        } else {
            PinState::Low
        }
    }
}

/// Splits a port peripheral into its individual pins.
pub trait GpioExt {
    type Parts;

    fn split(self) -> Self::Parts;
}

/// Identity of a pin that is kept when its type is erased.
pub trait PinExt {
    type Mode;

    spec fn spec_pin_id(&self) -> u8;

    spec fn spec_port_id(&self) -> u8;

    spec fn spec_pfs_addr(&self) -> usize;

    fn pin_id(&self) -> (r: u8)
        ensures
            r == self.spec_pin_id(),
    ;

    fn port_id(&self) -> (r: u8)
        ensures
            r == self.spec_port_id(),
    ;

    /// Address of the pin's PmnPFS register.
    fn pmnpfs_addr(&self) -> (r: usize)
        ensures
            r == self.spec_pfs_addr(),
    ;
}

/// Generic input mode typestate.
#[derive(Debug, Default)]
pub struct Input;

/// Generic output mode typestate (push-pull by default).
#[derive(Debug, Default)]
pub struct Output<Otype = PushPull> {
    _mode: PhantomData<Otype>,
}

/// Push-pull output typestate.
#[derive(Debug, Default)]
pub struct PushPull;

/// Open drain output typestate.
#[derive(Debug, Default)]
pub struct OutputOpenDrain;

/// Modes whose pins may have their pull-up changed.
pub trait PinPull: Sized {
    fn set_internal_resistor(&mut self, resistor: Pull);

    fn internal_resistor(self, resistor: Pull) -> Self;
}

impl PinPull for Input {
    fn set_internal_resistor(&mut self, _resistor: Pull) {
    }

    fn internal_resistor(self, _resistor: Pull) -> Self {
        self
    }
}

/// What a mode typestate writes into the PmnPFS register: its direction and
/// its output driver, each when the mode fixes one.
pub trait PinMode {
    spec fn spec_pmode() -> Option<Modes>;

    spec fn spec_outtype() -> Option<OutputType>;

    spec fn spec_afr() -> Option<u8>;

    fn pmode() -> (r: Option<Modes>)
        ensures
            r == Self::spec_pmode(),
    ;

    fn outtype() -> (r: Option<OutputType>)
        ensures
            r == Self::spec_outtype(),
    ;

    /// Alternate function number, where the mode selects one.
    fn afr() -> (r: Option<u8>)
        ensures
            r == Self::spec_afr(),
    ;
}

impl PinMode for Input {
    open spec fn spec_pmode() -> Option<Modes> {
        Some(Modes::Input)
    }

    open spec fn spec_outtype() -> Option<OutputType> {
        None
    }

    open spec fn spec_afr() -> Option<u8> {
        None
    }

    fn pmode() -> (r: Option<Modes>) {
        Some(Modes::Input)
    }

    fn outtype() -> (r: Option<OutputType>) {
        None
    }

    fn afr() -> (r: Option<u8>) {
        None
    }
}

impl PinMode for Output<OutputOpenDrain> {
    open spec fn spec_pmode() -> Option<Modes> {
        Some(Modes::Output)
    }

    open spec fn spec_outtype() -> Option<OutputType> {
        Some(OutputType::OpenDrain)
    }

    open spec fn spec_afr() -> Option<u8> {
        None
    }

    fn pmode() -> (r: Option<Modes>) {
        Some(Modes::Output)
    }

    fn outtype() -> (r: Option<OutputType>) {
        Some(OutputType::OpenDrain)
    }

    fn afr() -> (r: Option<u8>) {
        None
    }
}

impl PinMode for Output<PushPull> {
    open spec fn spec_pmode() -> Option<Modes> {
        Some(Modes::Output)
    }

    open spec fn spec_outtype() -> Option<OutputType> {
        Some(OutputType::PushPull)
    }

    open spec fn spec_afr() -> Option<u8> {
        None
    }

    fn pmode() -> (r: Option<Modes>) {
        Some(Modes::Output)
    }

    fn outtype() -> (r: Option<OutputType>) {
        Some(OutputType::PushPull)
    }

    fn afr() -> (r: Option<u8>) {
        None
    }
}

fn same_pmode(a: Option<Modes>, b: Option<Modes>) -> (r: bool)
    ensures
        r == (a == b),
{
    match (a, b) {
        (None, None) => true,
        (Some(Modes::Input), Some(Modes::Input)) => true,
        (Some(Modes::Output), Some(Modes::Output)) => true,
        _ => false,
    }
}

fn same_outtype(a: Option<OutputType>, b: Option<OutputType>) -> (r: bool)
    ensures
        r == (a == b),
{
    match (a, b) {
        (None, None) => true,
        (Some(OutputType::PushPull), Some(OutputType::PushPull)) => true,
        (Some(OutputType::OpenDrain), Some(OutputType::OpenDrain)) => true,
        _ => false,
    }
}

/// The PmnPFS register after moving a pin from mode `from` to mode `to`:
/// the open drain bit is written when the output types differ and `to` has
/// one, then the direction bit when the directions differ and `to` has one.
pub open spec fn mode_transition(
    from_pmode: Option<Modes>,
    from_outtype: Option<OutputType>,
    to_pmode: Option<Modes>,
    to_outtype: Option<OutputType>,
    v: u32,
) -> u32 {
    let v1 = if from_outtype != to_outtype && to_outtype is Some {
        with_bit(v, PFS_NCODR, to_outtype->0 == OutputType::OpenDrain)
    } else {
        v
    };
    if from_pmode != to_pmode && to_pmode is Some {
        with_bit(v1, PFS_PDR, to_pmode->0 == Modes::Output)
    } else {
        v1
    }
}

/// The register after changing a pin from mode `M0` into mode `M1`.
pub open spec fn moded<M0: PinMode, M1: PinMode>(v: u32) -> u32 {
    mode_transition(M0::spec_pmode(), M0::spec_outtype(), M1::spec_pmode(), M1::spec_outtype(), v)
}

/// Whether the register's direction and open drain bits are those that the
/// mode `M` fixes.
pub open spec fn agrees_with<M: PinMode>(v: u32) -> bool {
    &&& M::spec_pmode() is Some ==> bit_is_set(v, PFS_PDR) == (M::spec_pmode()->0
        == Modes::Output)
    &&& M::spec_outtype() is Some ==> bit_is_set(v, PFS_NCODR) == (M::spec_outtype()->0
        == OutputType::OpenDrain)
}

/// Computes the register after a mode change (see `mode_transition`).
pub fn apply_mode<M0: PinMode, M1: PinMode>(pfs: &mut u32)
    ensures
        *final(pfs) == moded::<M0, M1>(*old(pfs)),
{
    let from_out = M0::outtype();
    let to_out = M1::outtype();
    if !same_outtype(from_out, to_out) {
        if let Some(outputtype) = to_out {
            *pfs = write_bit(*pfs, PFS_NCODR, outputtype.bit());
        }
    }
    let from_mode = M0::pmode();
    let to_mode = M1::pmode();
    if !same_pmode(from_mode, to_mode) {
        if let Some(mode) = to_mode {
            *pfs = write_bit(*pfs, PFS_PDR, mode.bit());
        }
    }
}

/// A mode change keeps the typestate honest: when the register agreed with
/// the old mode, it agrees with the new one afterwards.
pub proof fn lemma_mode_change_agrees<M0: PinMode, M1: PinMode>(v: u32)
    requires
        agrees_with::<M0>(v),
    ensures
        agrees_with::<M1>(moded::<M0, M1>(v)),
{
    lemma_with_bit(v, 6, 2, true);
    lemma_with_bit(v, 6, 2, false);
    let v1 = if M0::spec_outtype() != M1::spec_outtype() && M1::spec_outtype() is Some {
        with_bit(v, PFS_NCODR, M1::spec_outtype()->0 == OutputType::OpenDrain)
    } else {
        v
    };
    assert(1u32 << 2u32 == PFS_PDR) by (bit_vector);
    assert(1u32 << 6u32 == PFS_NCODR) by (bit_vector);
    lemma_with_bit(v1, 2, 6, true);
    lemma_with_bit(v1, 2, 6, false);
}

proof fn lemma_frame_bits(x: u32)
    ensures
        (x | PFS_NCODR) & !(PFS_PDR | PFS_NCODR) == x & !(PFS_PDR | PFS_NCODR),
        (x & !PFS_NCODR) & !(PFS_PDR | PFS_NCODR) == x & !(PFS_PDR | PFS_NCODR),
        (x | PFS_PDR) & !(PFS_PDR | PFS_NCODR) == x & !(PFS_PDR | PFS_NCODR),
        (x & !PFS_PDR) & !(PFS_PDR | PFS_NCODR) == x & !(PFS_PDR | PFS_NCODR),
{
    assert((x | 0x40u32) & !(0x4u32 | 0x40u32) == x & !(0x4u32 | 0x40u32)) by (bit_vector);
    assert((x & !0x40u32) & !(0x4u32 | 0x40u32) == x & !(0x4u32 | 0x40u32)) by (bit_vector);
    assert((x | 0x4u32) & !(0x4u32 | 0x40u32) == x & !(0x4u32 | 0x40u32)) by (bit_vector);
    assert((x & !0x4u32) & !(0x4u32 | 0x40u32) == x & !(0x4u32 | 0x40u32)) by (bit_vector);
}

/// A mode change touches no field but direction and open drain.
pub proof fn lemma_mode_change_frame<M0: PinMode, M1: PinMode>(v: u32)
    ensures
        moded::<M0, M1>(v) & !(PFS_PDR | PFS_NCODR) == v & !(PFS_PDR | PFS_NCODR),
{
    let v1 = if M0::spec_outtype() != M1::spec_outtype() && M1::spec_outtype() is Some {
        with_bit(v, PFS_NCODR, M1::spec_outtype()->0 == OutputType::OpenDrain)
    } else {
        v
    };
    lemma_frame_bits(v);
    lemma_frame_bits(v1);
}

// ---------------------------------------------------------------------------
// Pins
// ---------------------------------------------------------------------------
/// Pin `N` (0 to 15) of port `P` in mode `MODE`. Pins are inputs after reset.
pub struct Pin<const P: u8, const N: u8, MODE = Input> {
    _mode: PhantomData<MODE>,
}

impl<const P: u8, const N: u8, MODE> PinExt for Pin<P, N, MODE> {
    type Mode = MODE;

    open spec fn spec_pin_id(&self) -> u8 {
        N
    }

    open spec fn spec_port_id(&self) -> u8 {
        P
    }

    open spec fn spec_pfs_addr(&self) -> usize {
        pfs_addr(P, N) as usize
    }

    fn pin_id(&self) -> (r: u8) {
        N
    }

    fn port_id(&self) -> (r: u8) {
        P
    }

    fn pmnpfs_addr(&self) -> (r: usize) {
        Self::register_addr()
    }
}

impl<const P: u8, const N: u8, MODE> Pin<P, N, MODE> {
    pub fn new() -> Self {
        Pin { _mode: PhantomData }
    }

    /// Address of this pin's PmnPFS register: base + 0x40 * port + 4 * pin.
    pub fn register_addr() -> (r: usize)
        ensures
            r == pfs_addr(P, N),
    {
        PFS_BASE_ADDR + PORT_PFS_OFFSET * (P as usize) + PIN_PFS_OFFSET * (N as usize)
    }

    /// Drives the output latch to `state`, whatever the pin's mode.
    fn _set_state(&mut self, pfs: &mut u32, state: PinState)
        ensures
            *final(pfs) == with_bit(*old(pfs), PFS_PODR, state == PinState::High),
    {
        match state {
            PinState::High => self._set_high(pfs),
            PinState::Low => self._set_low(pfs),
        }
    }

    fn _set_high(&mut self, pfs: &mut u32)
        ensures
            *final(pfs) == *old(pfs) | PFS_PODR,
    {
        *pfs = *pfs | PFS_PODR;
    }

    fn _set_low(&mut self, pfs: &mut u32)
        ensures
            *final(pfs) == *old(pfs) & !PFS_PODR,
    {
        *pfs = *pfs & !PFS_PODR;
    }

    fn _is_set_high(&self, pfs: u32) -> (r: bool)
        ensures
            r == bit_is_set(pfs, PFS_PDR),
    {
        pfs & PFS_PDR != 0
    }

    fn _is_set_low(&self, pfs: u32) -> (r: bool)
        ensures
            r == !bit_is_set(pfs, PFS_PDR),
    {
        pfs & PFS_PDR == 0
    }

    fn _is_high(&self, pfs: u32) -> (r: bool)
        ensures
            r == bit_is_set(pfs, PFS_PIDR),
    {
        pfs & PFS_PIDR != 0
    }

    fn _is_low(&self, pfs: u32) -> (r: bool)
        ensures
            r == !bit_is_set(pfs, PFS_PIDR),
    {
        pfs & PFS_PIDR == 0
    }

    /// Whether the input level is low.
    pub fn is_low(&self, pfs: u32) -> (r: bool)
        ensures
            r == !bit_is_set(pfs, PFS_PIDR),
    {
        self._is_low(pfs)
    }

    /// Whether the input level is high.
    pub fn is_high(&self, pfs: u32) -> (r: bool)
        ensures
            r == bit_is_set(pfs, PFS_PIDR),
    {
        !self.is_low(pfs)
    }

    /// Erases port and pin number from the type.
    pub fn erase(self) -> (r: AnyPin<MODE>)
        ensures
            r.spec_pin_port() == crate::hal::gpio::erased::pack(P, N),
            r.spec_pfs_addr() == pfs_addr(P, N),
    {
        AnyPin::new(P, N, Self::register_addr())
    }
}

impl<const P: u8, const N: u8, MODE> Pin<P, N, Output<MODE>> {
    /// Drives the output high.
    pub fn set_high(&mut self, pfs: &mut u32)
        ensures
            *final(pfs) == *old(pfs) | PFS_PODR,
    {
        self._set_high(pfs)
    }

    /// Drives the output low.
    pub fn set_low(&mut self, pfs: &mut u32)
        ensures
            *final(pfs) == *old(pfs) & !PFS_PODR,
    {
        self._set_low(pfs)
    }

    /// `Low` when the pin reads as set low (see `is_set_low`), else `High`.
    pub fn get_state(&self, pfs: u32) -> (r: PinState)
        ensures
            r == (if !bit_is_set(pfs, PFS_PDR) {
                PinState::Low
            } else {
                PinState::High
            }),
    {
        if self.is_set_low(pfs) {
            PinState::Low
        } else {
            PinState::High
        }
    }

    /// Reads the direction bit of the register: set low when it is clear.
    pub fn is_set_low(&self, pfs: u32) -> (r: bool)
        ensures
            r == !bit_is_set(pfs, PFS_PDR),
    {
        self._is_set_low(pfs)
    }

    pub fn is_set_high(&self, pfs: u32) -> (r: bool)
        ensures
            r == bit_is_set(pfs, PFS_PDR),
    {
        !self.is_set_low(pfs)
    }

    /// Drives the output to `state`.
    pub fn set_state(&mut self, pfs: &mut u32, state: PinState)
        ensures
            *final(pfs) == with_bit(*old(pfs), PFS_PODR, state == PinState::High),
    {
        match state {
            PinState::High => self.set_high(pfs),
            PinState::Low => self.set_low(pfs),
        }
    }

    /// Drives the output high when the pin reads as set low, else low.
    pub fn toggle(&mut self, pfs: &mut u32)
        ensures
            *final(pfs) == with_bit(*old(pfs), PFS_PODR, !bit_is_set(*old(pfs), PFS_PDR)),
    {
        if self.is_set_low(*pfs) {
            self.set_high(pfs)
        } else {
            self.set_low(pfs)
        }
    }
}

impl<const P: u8, const N: u8, MODE: PinPull> Pin<P, N, MODE> {
    /// Sets the internal pull-up in place.
    pub fn set_internal_resistor(&mut self, pfs: &mut u32, resistor: Pull)
        ensures
            *final(pfs) == with_bit(*old(pfs), PFS_PCR, resistor == Pull::Up),
    {
        *pfs = write_bit(*pfs, PFS_PCR, resistor.bit());
    }

    /// Sets the internal pull-up and hands the pin back.
    pub fn internal_resistor(self, pfs: &mut u32, resistor: Pull) -> (r: Self)
        ensures
            *final(pfs) == with_bit(*old(pfs), PFS_PCR, resistor == Pull::Up),
    {
        let mut pin = self;
        pin.set_internal_resistor(pfs, resistor);
        pin
    }
}

impl Input {
    /// Turns `pin` into an input with the pull-up set as `pull` says.
    pub fn new<const P: u8, const N: u8, MODE: PinMode>(
        pin: Pin<P, N, MODE>,
        pfs: &mut u32,
        pull: Pull,
    ) -> (r: Pin<P, N, Self>)
        ensures
            *final(pfs) == with_bit(moded::<MODE, Input>(*old(pfs)), PFS_PCR, pull == Pull::Up),
    {
        pin.into_mode(pfs).internal_resistor(pfs, pull)
    }
}

impl<const P: u8, const N: u8, MODE: PinMode> Pin<P, N, MODE> {
    /// Configures the pin as an input.
    pub fn into_input(self, pfs: &mut u32) -> (r: Pin<P, N, Input>)
        ensures
            *final(pfs) == moded::<MODE, Input>(*old(pfs)),
    {
        self.into_mode(pfs)
    }

    /// Configures the pin as an input without pull-up.
    pub fn into_floating_input(self, pfs: &mut u32) -> (r: Pin<P, N, Input>)
        ensures
            *final(pfs) == with_bit(moded::<MODE, Input>(*old(pfs)), PFS_PCR, false),
    {
        self.into_mode(pfs).internal_resistor(pfs, Pull::Floating)
    }

    /// Configures the pin as an input with pull-up.
    pub fn into_pullup_input(self, pfs: &mut u32) -> (r: Pin<P, N, Input>)
        ensures
            *final(pfs) == with_bit(moded::<MODE, Input>(*old(pfs)), PFS_PCR, true),
    {
        self.into_mode(pfs).internal_resistor(pfs, Pull::Up)
    }

    /// Configures the pin as a push-pull output, driven low.
    pub fn into_push_pull_output(self, pfs: &mut u32) -> (r: Pin<P, N, Output<PushPull>>)
        ensures
            *final(pfs) == moded::<MODE, Output<PushPull>>(*old(pfs) & !PFS_PODR),
    {
        let mut pin = self;
        pin._set_low(pfs);
        pin.into_mode(pfs)
    }

    /// Configures the pin as a push-pull output driven to `state`; the latch
    /// is written first so the pin never shows the wrong level.
    pub fn into_push_pull_output_in_state(self, pfs: &mut u32, state: PinState) -> (r: Pin<
        P,
        N,
        Output<PushPull>,
    >)
        ensures
            *final(pfs) == moded::<MODE, Output<PushPull>>(
                with_bit(*old(pfs), PFS_PODR, state == PinState::High),
            ),
    {
        let mut pin = self;
        pin._set_state(pfs, state);
        pin.into_mode(pfs)
    }

    /// Configures the pin as an open drain output, driven low.
    pub fn into_open_drain_output(self, pfs: &mut u32) -> (r: Pin<P, N, Output<OutputOpenDrain>>)
        ensures
            *final(pfs) == moded::<MODE, Output<OutputOpenDrain>>(*old(pfs) & !PFS_PODR),
    {
        let mut pin = self;
        pin._set_low(pfs);
        pin.into_mode(pfs)
    }

    /// Puts the register into mode `M` in place; the type keeps saying
    /// `MODE`, so the caller answers for what follows.
    pub fn mode<M: PinMode>(&mut self, pfs: &mut u32)
        ensures
            *final(pfs) == moded::<MODE, M>(*old(pfs)),
    {
        apply_mode::<MODE, M>(pfs)
    }

    /// Consumes the pin and gives it back in mode `M`.
    pub fn into_mode<M: PinMode>(self, pfs: &mut u32) -> (r: Pin<P, N, M>)
        ensures
            *final(pfs) == moded::<MODE, M>(*old(pfs)),
    {
        let mut pin = self;
        pin.mode::<M>(pfs);
        Pin::new()
    }

    /// Into a fully erased dynamic pin, which starts as a floating input:
    /// the pin's register `pfs` gets input direction and no pull-up.
    pub fn into_fully_erased_dynamic(self, pfs: &mut u32) -> (r: DynamicPinErased)
        ensures
            r.spec_pin_port() == crate::hal::gpio::erased::pack(P, N),
            r.spec_mode() == Dynamic::InputFloating,
            r.spec_pfs_addr() == pfs_addr(P, N),
            *final(pfs) == crate::hal::gpio::erased::floating_input_pfs(*old(pfs)),
    {
        let mut d = DynamicPinErased::new(P, N, Dynamic::InputFloating, Self::register_addr());
        d.make_floating_input(pfs);
        d
    }
}

} // verus!
