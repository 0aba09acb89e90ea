//! Pins whose port and pin number (and, for dynamic pins, mode) are erased
//! from the type, so that they fit in one array.
use core::marker::PhantomData;
use vstd::prelude::*;

use crate::hal::gpio::{
    apply_mode, bit_is_set, moded, pfs_addr, with_bit, write_bit, Input, Output, Pin, PinExt, PinMode,
    PinState, PushPull, PFS_PCR, PFS_PODR,
};

verus! {

/// The port in the upper four bits of a packed pin/port byte.
pub open spec fn packed_port(pin_port: u8) -> u8 {
    pin_port >> 4u8
}

/// The pin in the lower four bits of a packed pin/port byte.
pub open spec fn packed_pin(pin_port: u8) -> u8 {
    pin_port & 0x0fu8
}

/// Packs port and pin into one byte: port in bits 4 to 7, pin in bits 0 to 3.
pub open spec fn pack(port: u8, pin: u8) -> u8 {
    (port << 4u8) | pin
}

/// Packing keeps port and pin apart whenever both are below 16.
pub proof fn lemma_pack_unpack(port: u8, pin: u8)
    requires
        port < 16,
        pin < 16,
    ensures
        packed_port(pack(port, pin)) == port,
        packed_pin(pack(port, pin)) == pin,
{
    assert(((port << 4u8) | pin) >> 4u8 == port) by (bit_vector)
        requires
            port < 16,
            pin < 16,
    ;
    assert(((port << 4u8) | pin) & 0x0fu8 == pin) by (bit_vector)
        requires
            port < 16,
            pin < 16,
    ;
}

/// Unpacking and packing again gives the same byte.
pub proof fn lemma_unpack_pack(pin_port: u8)
    ensures
        pack(packed_port(pin_port), packed_pin(pin_port)) == pin_port,
{
    assert(((pin_port >> 4u8) << 4u8) | (pin_port & 0x0fu8) == pin_port) by (bit_vector);
}

/// Fully erased pin in mode `MODE`.
pub struct AnyPin<MODE> {
    /// Bits 0 to 3: pin; bits 4 to 7: port.
    pin_port: u8,
    _mode: PhantomData<MODE>,
    pfs_addr: usize,
}

impl<MODE> PinExt for AnyPin<MODE> {
    type Mode = MODE;

    closed spec fn spec_pin_id(&self) -> u8 {
        packed_pin(self.pin_port)
    }

    closed spec fn spec_port_id(&self) -> u8 {
        packed_port(self.pin_port)
    }

    closed spec fn spec_pfs_addr(&self) -> usize {
        self.pfs_addr
    }

    fn pin_id(&self) -> (r: u8) {
        self.pin_port & 0x0f
    }

    fn port_id(&self) -> (r: u8) {
        self.pin_port >> 4
    }

    fn pmnpfs_addr(&self) -> (r: usize) {
        self.pfs_addr
    }
}

impl<MODE> AnyPin<MODE> {
    /// The packed pin/port byte.
    pub closed spec fn spec_pin_port(&self) -> u8 {
        self.pin_port
    }

    /// Address of the pin's PmnPFS register.
    pub closed spec fn spec_pfs_addr(&self) -> usize {
        self.pfs_addr
    }

    /// The pin and port numbers are those of the packed byte.
    pub proof fn lemma_ids(&self)
        ensures
            self.spec_pin_id() == packed_pin(self.spec_pin_port()),
            self.spec_port_id() == packed_port(self.spec_pin_port()),
            PinExt::spec_pfs_addr(self) == self.spec_pfs_addr(),
    {
    }

    /// Pin `pin` of port `port`, erased.
    pub closed spec fn erased(port: u8, pin: u8) -> AnyPin<MODE> {
        AnyPin { pin_port: pack(port, pin), _mode: PhantomData, pfs_addr: pfs_addr(port, pin) as usize }
    }

    /// The erased pin keeps the packed port and pin and the PFS address.
    pub proof fn lemma_erased(port: u8, pin: u8)
        ensures
            Self::erased(port, pin).spec_pin_port() == pack(port, pin),
            Self::erased(port, pin).spec_pfs_addr() == pfs_addr(port, pin) as usize,
    {
    }

    pub fn from_pin_port(pin_port: u8, pfs_addr: usize) -> (r: Self)
        ensures
            r.spec_pin_port() == pin_port,
            r.spec_pfs_addr() == pfs_addr,
    {
        AnyPin { pin_port, _mode: PhantomData, pfs_addr }
    }

    pub fn into_pin_port(self) -> (r: u8)
        ensures
            r == self.spec_pin_port(),
    {
        self.pin_port
    }

    pub fn new(port: u8, pin: u8, pfs_addr: usize) -> (r: Self)
        ensures
            r.spec_pin_port() == pack(port, pin),
            r.spec_pfs_addr() == pfs_addr,
    {
        AnyPin { pin_port: port << 4 | pin, _mode: PhantomData, pfs_addr }
    }

    /// Converts into a fully erased dynamic pin, which starts as a floating
    /// input; port, pin and register are kept.
    pub fn into_dynamic(self) -> (r: DynamicPinErased)
        ensures
            r.spec_pin_port() == self.spec_pin_port(),
            r.spec_mode() == Dynamic::InputFloating,
            r.spec_pfs_addr() == self.spec_pfs_addr(),
    {
        let port = self.port_id();
        let pin = self.pin_id();
        let pfs_addr = self.pfs_addr;
        proof {
            lemma_unpack_pack(self.pin_port);
        }
        DynamicPinErased::new(port, pin, Dynamic::InputFloating, pfs_addr)
    }

    /// Drives the output latch high.
    pub fn set_high(&mut self, pfs: &mut u32)
        ensures
            *final(pfs) == *old(pfs) | PFS_PODR,
            *final(self) == *old(self),
    {
        *pfs = *pfs | PFS_PODR;
    }

    /// Drives the output latch low.
    pub fn set_low(&mut self, pfs: &mut u32)
        ensures
            *final(pfs) == *old(pfs) & !PFS_PODR,
            *final(self) == *old(self),
    {
        *pfs = *pfs & !PFS_PODR;
    }

    /// Reads the output latch: set low when it is clear.
    pub fn is_set_low(&self, pfs: u32) -> (r: bool)
        ensures
            r == !bit_is_set(pfs, PFS_PODR),
    {
        pfs & PFS_PODR == 0
    }

    pub fn is_set_high(&self, pfs: u32) -> (r: bool)
        ensures
            r == bit_is_set(pfs, PFS_PODR),
    {
        !self.is_set_low(pfs)
    }

    pub fn get_state(&self, pfs: u32) -> (r: PinState)
        ensures
            r == (if bit_is_set(pfs, PFS_PODR) {
                PinState::High
            } else {
                PinState::Low
            }),
    {
        if self.is_set_low(pfs) {
            PinState::Low
        } else {
            PinState::High
        }
    }
}

impl<MODE: PinMode> AnyPin<MODE> {
    /// Puts the register into mode `M` in place; the caller answers for the
    /// type still saying `MODE`.
    pub fn mode<M: PinMode>(&mut self, pfs: &mut u32)
        ensures
            *final(pfs) == moded::<MODE, M>(*old(pfs)),
            *final(self) == *old(self),
    {
        apply_mode::<MODE, M>(pfs)
    }

    /// Consumes the pin and gives it back in mode `M`.
    pub fn into_mode<M: PinMode>(self, pfs: &mut u32) -> (r: AnyPin<M>)
        ensures
            *final(pfs) == moded::<MODE, M>(*old(pfs)),
            r.spec_pin_port() == self.spec_pin_port(),
            r.spec_pfs_addr() == self.spec_pfs_addr(),
    {
        let mut pin = self;
        pin.mode::<M>(pfs);
        AnyPin::from_pin_port(pin.pin_port, pin.pfs_addr)
    }
}

impl<const P: u8, const N: u8, MODE> From<Pin<P, N, MODE>> for AnyPin<MODE> {
    /// Erases port and pin number (see `Pin::erase`).
    fn from(value: Pin<P, N, MODE>) -> (r: AnyPin<MODE>) {
        value.erase()
    }
}

impl<const P: u8, const N: u8, MODE> vstd::std_specs::convert::FromSpecImpl<Pin<P, N, MODE>> for AnyPin<MODE> {
    open spec fn obeys_from_spec() -> bool {
        true
    }

    open spec fn from_spec(v: Pin<P, N, MODE>) -> AnyPin<MODE> {
        AnyPin::<MODE>::erased(P, N)
    }
}

/// Setting the latch reads back as set; clearing reads back as cleared.
pub proof fn lemma_latch_reads_back(v: u32)
    ensures
        bit_is_set(v | PFS_PODR, PFS_PODR),
        !bit_is_set(v & !PFS_PODR, PFS_PODR),
{
    assert((v | 1u32) & 1u32 != 0) by (bit_vector);
    assert((v & !1u32) & 1u32 == 0) by (bit_vector);
}

/// Current mode of a dynamic pin.
#[derive(Debug, Clone, Copy, PartialEq, Eq, Structural)]
pub enum Dynamic {
    InputFloating,
    InputPullUp,
    OutputPushPull,
    OutputOpenDrain,
}

impl Dynamic {
    pub open spec fn spec_is_input(self) -> bool {
        self != Dynamic::OutputPushPull
    }

    pub open spec fn spec_is_output(self) -> bool {
        self == Dynamic::OutputPushPull || self == Dynamic::OutputOpenDrain
    }

    /// Whether the pin can be read: all but push-pull outputs.
    pub fn is_input(&self) -> (r: bool)
        ensures
            r == self.spec_is_input(),
    {
        match self {
            Dynamic::InputFloating | Dynamic::InputPullUp | Dynamic::OutputOpenDrain => true,
            Dynamic::OutputPushPull => false,
        }
    }

    /// Whether the pin can be driven: the two output modes.
    pub fn is_output(&self) -> (r: bool)
        ensures
            r == self.spec_is_output(),
    {
        match self {
            Dynamic::InputFloating | Dynamic::InputPullUp => false,
            Dynamic::OutputPushPull | Dynamic::OutputOpenDrain => true,
        }
    }
}

/// Error of a dynamic pin used in the wrong mode.
#[derive(Debug, Clone, Copy, PartialEq, Eq, Structural)]
pub enum PinModeError {
    IncorrectMode,
}

/// Mode of a pin whose mode is not known; it fixes neither direction nor
/// output type.
pub struct Unknown;

impl PinMode for Unknown {
    open spec fn spec_pmode() -> Option<crate::hal::gpio::Modes> {
        None
    }

    open spec fn spec_outtype() -> Option<crate::hal::gpio::OutputType> {
        None
    }

    open spec fn spec_afr() -> Option<u8> {
        None
    }

    fn pmode() -> (r: Option<crate::hal::gpio::Modes>) {
        None
    }

    fn outtype() -> (r: Option<crate::hal::gpio::OutputType>) {
        None
    }

    fn afr() -> (r: Option<u8>) {
        None
    }
}

/// Fully erased dynamic pin, whose mode changes at run time (charlieplexed
/// LEDs, multiplexed buses).
pub struct DynamicPinErased {
    pin_port: u8,
    mode: Dynamic,
    pfs_addr: usize,
}

impl PinExt for DynamicPinErased {
    type Mode = Unknown;

    closed spec fn spec_pin_id(&self) -> u8 {
        packed_pin(self.pin_port)
    }

    closed spec fn spec_port_id(&self) -> u8 {
        packed_port(self.pin_port)
    }

    closed spec fn spec_pfs_addr(&self) -> usize {
        self.pfs_addr
    }

    fn pin_id(&self) -> (r: u8) {
        self.pin_port & 0x0f
    }

    fn port_id(&self) -> (r: u8) {
        self.pin_port >> 4
    }

    fn pmnpfs_addr(&self) -> (r: usize) {
        self.pfs_addr
    }
}

/// Register after switching a pin of unknown mode into floating input: the
/// direction bit is cleared (input), then the pull-up bit (floating).
pub open spec fn floating_input_pfs(v: u32) -> u32 {
    with_bit(moded::<Unknown, Input>(v), PFS_PCR, false)
}

/// Register after switching a pin of unknown mode into push-pull output:
/// the open drain bit is cleared, then the direction bit set.
pub open spec fn push_pull_output_pfs(v: u32) -> u32 {
    moded::<Unknown, Output<PushPull>>(v)
}

impl DynamicPinErased {
    pub closed spec fn spec_pin_port(&self) -> u8 {
        self.pin_port
    }

    pub closed spec fn spec_mode(&self) -> Dynamic {
        self.mode
    }

    pub closed spec fn spec_pfs_addr(&self) -> usize {
        self.pfs_addr
    }

    /// The pin and port numbers are those of the packed byte.
    pub proof fn lemma_ids(&self)
        ensures
            self.spec_pin_id() == packed_pin(self.spec_pin_port()),
            self.spec_port_id() == packed_port(self.spec_pin_port()),
            PinExt::spec_pfs_addr(self) == self.spec_pfs_addr(),
    {
    }

    pub fn new(port: u8, pin: u8, mode: Dynamic, pfs_addr: usize) -> (r: Self)
        ensures
            r.spec_pin_port() == pack(port, pin),
            r.spec_mode() == mode,
            r.spec_pfs_addr() == pfs_addr,
    {
        DynamicPinErased { pin_port: port << 4 | pin, mode, pfs_addr }
    }

    pub fn into_pin_port(self) -> (r: u8)
        ensures
            r == self.spec_pin_port(),
    {
        self.pin_port
    }

    /// Switches to floating input: input direction, no pull-up.
    pub fn make_floating_input(&mut self, pfs: &mut u32)
        ensures
            *final(pfs) == floating_input_pfs(*old(pfs)),
            final(self).spec_mode() == Dynamic::InputFloating,
            final(self).spec_pin_port() == old(self).spec_pin_port(),
            final(self).spec_pfs_addr() == old(self).spec_pfs_addr(),
    {
        let port_id: u8 = self.port_id();
        let pin_id: u8 = self.pin_id();
        let _pin: AnyPin<Input> = AnyPin::<Unknown>::new(port_id, pin_id, self.pfs_addr).into_mode::<
            Input,
        >(pfs);
        *pfs = write_bit(*pfs, PFS_PCR, false);
        self.mode = Dynamic::InputFloating;
    }

    /// Switches to push-pull output.
    pub fn make_push_pull_output(&mut self, pfs: &mut u32)
        ensures
            *final(pfs) == push_pull_output_pfs(*old(pfs)),
            final(self).spec_mode() == Dynamic::OutputPushPull,
            final(self).spec_pin_port() == old(self).spec_pin_port(),
            final(self).spec_pfs_addr() == old(self).spec_pfs_addr(),
    {
        let port_id: u8 = self.port_id();
        let pin_id: u8 = self.pin_id();
        let _pin: AnyPin<Output<PushPull>> = AnyPin::<Unknown>::new(
            port_id,
            pin_id,
            self.pfs_addr,
        ).into_mode::<Output<PushPull>>(pfs);
        self.mode = Dynamic::OutputPushPull;
    }

    /// Drives the pin high if it is an output; otherwise leaves the register
    /// alone and reports the wrong mode.
    pub fn set_high(&mut self, pfs: &mut u32) -> (r: Result<(), PinModeError>)
        ensures
            *final(self) == *old(self),
            old(self).spec_mode().spec_is_output() ==> r is Ok && *final(pfs) == *old(pfs)
                | PFS_PODR,
            !old(self).spec_mode().spec_is_output() ==> r == Err::<(), PinModeError>(
                PinModeError::IncorrectMode,
            ) && *final(pfs) == *old(pfs),
    {
        if self.mode.is_output() {
            let port_id: u8 = self.port_id();
            let pin_id: u8 = self.pin_id();
            AnyPin::<Unknown>::new(port_id, pin_id, self.pfs_addr).set_high(pfs);
            Ok(())
        } else {
            Err(PinModeError::IncorrectMode)
        }
    }

    /// Drives the pin low if it is an output; otherwise leaves the register
    /// alone and reports the wrong mode.
    pub fn set_low(&mut self, pfs: &mut u32) -> (r: Result<(), PinModeError>)
        ensures
            *final(self) == *old(self),
            old(self).spec_mode().spec_is_output() ==> r is Ok && *final(pfs) == *old(pfs)
                & !PFS_PODR,
            !old(self).spec_mode().spec_is_output() ==> r == Err::<(), PinModeError>(
                PinModeError::IncorrectMode,
            ) && *final(pfs) == *old(pfs),
    {
        if self.mode.is_output() {
            let port_id: u8 = self.port_id();
            let pin_id: u8 = self.pin_id();
            AnyPin::<Unknown>::new(port_id, pin_id, self.pfs_addr).set_low(pfs);
            Ok(())
        } else {
            Err(PinModeError::IncorrectMode)
        }
    }
}

/// Switching to floating input clears the direction and pull-up bits and
/// nothing else; switching to push-pull output sets the direction bit and
/// clears open drain.
pub proof fn lemma_dynamic_switches(v: u32)
    ensures
        floating_input_pfs(v) == v & !(crate::hal::gpio::PFS_PDR | PFS_PCR),
        floating_input_pfs(v) & crate::hal::gpio::PFS_PDR == 0,
        floating_input_pfs(v) & PFS_PCR == 0,
        push_pull_output_pfs(v) == (v & !crate::hal::gpio::PFS_NCODR) | crate::hal::gpio::PFS_PDR,
{
    assert({
        &&& (v & !4u32) & !0x10u32 == v & !(4u32 | 0x10u32)
        &&& ((v & !4u32) & !0x10u32) & 4u32 == 0
        &&& ((v & !4u32) & !0x10u32) & 0x10u32 == 0
    }) by (bit_vector);
}

} // verus!
