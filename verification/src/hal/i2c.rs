//! Interrupt driven I2C master on the IIC peripheral (the Qwiic connector).
//!
//! A transfer is a small state machine shared between the blocking caller
//! and four interrupts: transmit data empty (TXI), receive data full (RXI),
//! transmit end (TEI) and not-acknowledged (NAK). This module holds that
//! state machine: each interrupt is a transition that says which register
//! accesses the handler performs.
use core::marker::PhantomData;
use vstd::prelude::*;

use crate::hal::gpio::{
    moded, with_bit, Input, Output, OutputOpenDrain, Pin, Pull, PFS_NCODR, PFS_PCR, PFS_PDR, PFS_PMR,
    PFS_PODR, PFS_PSEL_MASK,
};

verus! {

/// Module stop control register B: IIC0 bit (9).
pub const MSTPCRB_IIC0: u32 = 0x0000_0200;

/// Clears the IIC0 module stop bit in MSTPCRB, enabling the Qwiic bus.
pub fn enable_qwiic_bus(mstpcrb: &mut u32)
    ensures
        *final(mstpcrb) == *old(mstpcrb) & !MSTPCRB_IIC0,
{
    *mstpcrb = *mstpcrb & !MSTPCRB_IIC0;
}

/// Bus clock divider (ICMR1.CKS) for 100 kHz from the 24 MHz PCLKB.
pub const CKS_100KHZ: u8 = 0b010;

/// High width (ICBRH.BRH) for 100 kHz.
pub const BRH_100KHZ: u8 = 22;

/// Low width (ICBRL.BRL) for 100 kHz.
pub const BRL_100KHZ: u8 = 27;

/// Peripheral function number of the IIC pins (PSEL).
pub const IIC_PSEL: u8 = 0b00111;

/// Puts a pin under peripheral control: sets PMR in its PFS register.
pub fn peripheral_mode(pfs: &mut u32)
    ensures
        *final(pfs) == *old(pfs) | PFS_PMR,
{
    *pfs = *pfs | PFS_PMR;
}

/// Selects peripheral function `psel` (five bits) in a PFS register.
pub fn peripheral_select(pfs: &mut u32, psel: u8)
    ensures
        *final(pfs) == (*old(pfs) & !PFS_PSEL_MASK) | (((psel & 0x1fu8) as u32) << 24u32),
{
    *pfs = (*pfs & !PFS_PSEL_MASK) | (((psel & 0x1f) as u32) << 24);
}

/// Internal buffer size in bytes; longer transfers are refused.
pub const BUFF_SIZE: usize = 32;

/// Who did not acknowledge.
#[derive(Debug, Clone, Copy, PartialEq, Eq, Structural)]
pub enum NoAcknowledgeSource {
    Address,
    Data,
    Unknown,
}

/// Errors of an I2C transfer.
#[derive(Debug, Clone, Copy, PartialEq, Eq, Structural)]
pub enum I2cError {
    Bus,
    ArbitrationLoss,
    NoAcknowledge(NoAcknowledgeSource),
    Overrun,
    Other,
}

/// Progress of the transfer on the bus.
#[derive(Debug, Clone, Copy, PartialEq, Eq, Structural)]
pub enum BusState {
    Idle,
    /// Address, bytes sent, total length.
    Writing(u8, usize, usize),
    /// Address, progress, total length.
    Reading(u8, usize, usize),
    /// The transfer failed.
    Error(I2cError),
    /// A stop has been requested but has not completed.
    Stopping,
    Complete,
}

/// What the receive interrupt does with the registers, in this order:
/// set WAIT, send NACK for the next byte, do a dummy read of the data
/// register, read a byte into the buffer at `store_at`, clear WAIT.
#[derive(Debug, Clone, Copy, PartialEq, Eq, Structural)]
pub struct RxiAction {
    pub set_wait: bool,
    pub nack: bool,
    pub dummy_read: bool,
    pub store_at: Option<usize>,
    pub clear_wait: bool,
}

/// The receive interrupt does nothing.
pub open spec fn rxi_idle() -> RxiAction {
    RxiAction { set_wait: false, nack: false, dummy_read: false, store_at: None, clear_wait: false }
}

/// What the receive interrupt does in state `state`.
///
/// One byte: WAIT, NACK, dummy read, then the byte. Two bytes: WAIT and a
/// dummy read, then NACK and the first byte, then the second byte and WAIT
/// cleared. More bytes: a dummy read first, then one byte per interrupt;
/// WAIT is set two bytes before the end, NACK one byte before the end, and
/// WAIT cleared with the last byte.
pub open spec fn rxi_action_for(state: BusState) -> RxiAction {
    match state {
        BusState::Reading(_, idx, len) => {
            if len == 1 {
                RxiAction {
                    set_wait: true,
                    nack: true,
                    dummy_read: true,
                    store_at: Some(idx),
                    clear_wait: false,
                }
            } else if len == 2 {
                if idx == 0 {
                    RxiAction { set_wait: true, dummy_read: true, ..rxi_idle() }
                } else if idx == 1 {
                    RxiAction { nack: true, store_at: Some(0), ..rxi_idle() }
                } else if idx > 2 {
                    rxi_idle()
                } else {
                    RxiAction { store_at: Some(1), clear_wait: true, ..rxi_idle() }
                }
            } else if len - idx == 0 {
                RxiAction { store_at: Some((idx - 1) as usize), clear_wait: true, ..rxi_idle() }
            } else if len - idx == 1 {
                RxiAction { nack: true, store_at: Some((idx - 1) as usize), ..rxi_idle() }
            } else if len - idx == 2 {
                RxiAction { set_wait: true, store_at: Some((idx - 1) as usize), ..rxi_idle() }
            } else if idx == 0 {
                RxiAction { dummy_read: true, ..rxi_idle() }
            } else {
                RxiAction { store_at: Some((idx - 1) as usize), ..rxi_idle() }
            }
        },
        _ => rxi_idle(),
    }
}

/// The bus state after the receive interrupt.
pub open spec fn rxi_next_state(state: BusState) -> BusState {
    match state {
        BusState::Reading(addr, idx, len) => {
            if len == 1 {
                BusState::Complete
            } else if len == 2 {
                if idx == 0 {
                    BusState::Reading(addr, 1, 2)
                } else if idx == 1 {
                    BusState::Reading(addr, 2, 2)
                } else if idx > 2 {
                    BusState::Error(I2cError::Overrun)
                } else {
                    BusState::Complete
                }
            } else if len - idx == 0 {
                BusState::Complete
            } else if idx == 0 && len - idx > 2 {
                BusState::Reading(addr, 1, len)
            } else {
                BusState::Reading(addr, (idx + 1) as usize, len)
            }
        },
        _ => state,
    }
}

/// The bus state after a NAK: an error whose source is the address when
/// no byte had been transferred yet, the data otherwise.
pub open spec fn nak_next_state(state: BusState) -> BusState {
    match state {
        BusState::Writing(_, 0, _) => BusState::Error(I2cError::NoAcknowledge(NoAcknowledgeSource::Address)),
        BusState::Reading(_, 0, _) => BusState::Error(I2cError::NoAcknowledge(NoAcknowledgeSource::Address)),
        _ => BusState::Error(I2cError::NoAcknowledge(NoAcknowledgeSource::Data)),
    }
}

/// The bus state after a transmit end interrupt: a write whose bytes have
/// all gone out is complete.
pub open spec fn tei_next_state(state: BusState) -> BusState {
    match state {
        BusState::Writing(_, idx, len) => if idx >= len {
            BusState::Complete
        } else {
            state
        },
        _ => state,
    }
}

/// The transmit interrupt in state `state`, with the address still to send
/// when `first`: the next state, the next `first`, and the byte to transmit.
/// A write sends the address shifted left with the write bit (0), then the
/// buffer's bytes in order; a read sends the address with the read bit (1).
pub open spec fn txi_step(state: BusState, first: bool, buf: Seq<u8>) -> (BusState, bool, Option<u8>) {
    match state {
        BusState::Writing(addr, idx, len) => if len > BUFF_SIZE {
            (BusState::Error(I2cError::Overrun), first, None)
        } else if first {
            (state, false, Some(addr << 1u8))
        } else if idx < len {
            (BusState::Writing(addr, (idx + 1) as usize, len), false, Some(buf[idx as int]))
        } else {
            (state, false, None)
        },
        BusState::Reading(addr, 0, _) => if first {
            (state, false, Some((addr << 1u8) | 1u8))
        } else {
            (state, false, None)
        },
        _ => (state, first, None),
    }
}

/// Whether a blocking transfer stops waiting in this state.
pub open spec fn is_finished(state: BusState) -> bool {
    state is Complete || state is Stopping || state is Error
}

/// A blocking transfer waits while the transfer is under way: it stops
/// waiting in the completed, stopping and failed states and in no other;
/// in particular a write or read in progress (all its bytes handed over or
/// not) and an idle bus keep it waiting.
pub proof fn lemma_finished_states(state: BusState)
    ensures
        state is Complete ==> is_finished(state),
        state is Stopping ==> is_finished(state),
        state is Error ==> is_finished(state),
        state is Writing ==> !is_finished(state),
        state is Reading ==> !is_finished(state),
        state is Idle ==> !is_finished(state),
{
}

/// ICMR3 acknowledge bit to send (ACKBT, bit 3): 1 sends NACK.
pub const ICMR3_ACKBT: u8 = 0x08;

/// ICMR3 write protect of ACKBT (ACKWP, bit 4).
pub const ICMR3_ACKWP: u8 = 0x10;

/// ICMR3 wait bit (WAIT, bit 6): holds the clock low between bytes.
pub const ICMR3_WAIT: u8 = 0x40;

/// ICCR2 bus busy flag (BBSY, bit 7).
pub const ICCR2_BBSY: u8 = 0x80;

/// ICMR3 after the writes that come before the data register is read,
/// from `v`: WAIT set when asked; for a NACK, ACKWP set, ACKBT set, ACKWP
/// cleared again.
pub open spec fn icmr3_settled(a: RxiAction, v: u8) -> u8 {
    let w = if a.set_wait {
        v | ICMR3_WAIT
    } else {
        v
    };
    if a.nack {
        ((w | ICMR3_ACKWP) | ICMR3_ACKBT) & !ICMR3_ACKWP
    } else {
        w
    }
}

/// The ICMR3 values written, in order, before the data register is read.
pub open spec fn icmr3_writes_before(a: RxiAction, v: u8) -> Seq<u8> {
    let w = if a.set_wait {
        v | ICMR3_WAIT
    } else {
        v
    };
    let wait_writes = if a.set_wait {
        seq![w]
    } else {
        Seq::empty()
    };
    let nack_writes = if a.nack {
        seq![w | ICMR3_ACKWP, (w | ICMR3_ACKWP) | ICMR3_ACKBT, ((w | ICMR3_ACKWP) | ICMR3_ACKBT)
            & !ICMR3_ACKWP]
    } else {
        Seq::empty()
    };
    wait_writes + nack_writes
}

/// The register accesses of one receive interrupt, in this order: the
/// first `icmr3_count` values of `icmr3_before` written to ICMR3, a dummy
/// read of ICDRR when
/// `dummy_read`, a read of ICDRR kept for the buffer when `read_byte`, and
/// the `icmr3_after` write when there is one.
pub struct RxiPlan {
    pub icmr3_before: [u8; 4],
    pub icmr3_count: usize,
    pub dummy_read: bool,
    pub read_byte: bool,
    pub icmr3_after: Option<u8>,
}

/// What the blocking reader does after an interrupt.
#[derive(Debug, Clone, Copy, PartialEq, Eq, Structural)]
pub enum ReadWait {
    /// The transfer goes on: wait for the next interrupt.
    Pending,
    /// The read completed: copy the bytes out and stop waiting.
    CopyOut,
    /// A stop was requested: stop waiting.
    Stopped,
    /// The transfer failed: do a dummy read of the data register and stop
    /// waiting.
    Failed,
}

/// Whether a start condition may be issued on a bus whose ICCR2 reads
/// `iccr2`: a busy bus is a bus error.
pub fn check_bus_free(iccr2: u8) -> (r: Result<(), I2cError>)
    ensures
        iccr2 & ICCR2_BBSY != 0 ==> r == Err::<(), I2cError>(I2cError::Bus),
        iccr2 & ICCR2_BBSY == 0 ==> r is Ok,
{
    if iccr2 & ICCR2_BBSY != 0 {
        Err(I2cError::Bus)
    } else {
        Ok(())
    }
}

/// The transfer shared between a blocking caller and the interrupts.
pub struct Transaction {
    state: BusState,
    buffer: [u8; BUFF_SIZE],
    is_first_trans: bool,
}

impl Transaction {
    #[verifier::type_invariant]
    spec fn inv(self) -> bool {
        &&& self.state matches BusState::Writing(_, idx, len) ==> idx <= len <= BUFF_SIZE
        &&& self.state matches BusState::Reading(_, idx, len) ==> 1 <= len <= BUFF_SIZE && idx
            <= len
    }

    pub closed spec fn spec_state(self) -> BusState {
        self.state
    }

    pub closed spec fn spec_buffer(self) -> Seq<u8> {
        self.buffer@
    }

    /// Whether the address byte has yet to be sent.
    pub closed spec fn spec_first(self) -> bool {
        self.is_first_trans
    }

    /// The buffer always holds `BUFF_SIZE` bytes.
    pub proof fn lemma_buffer_len(self)
        ensures
            self.spec_buffer().len() == BUFF_SIZE,
    {
    }

    /// Whether a transaction may hold this state.
    pub open spec fn valid_state(state: BusState) -> bool {
        &&& state matches BusState::Writing(_, idx, len) ==> idx <= len <= BUFF_SIZE
        &&& state matches BusState::Reading(_, idx, len) ==> 1 <= len <= BUFF_SIZE && idx <= len
    }

    /// An idle transaction with an empty buffer.
    pub fn new() -> (r: Self)
        ensures
            r.spec_state() == BusState::Idle,
            r.spec_buffer() == Seq::new(BUFF_SIZE as nat, |i: int| 0u8),
            r.spec_first(),
    {
        let r = Transaction { state: BusState::Idle, buffer: [0; BUFF_SIZE], is_first_trans: true };
        assert(r.buffer@ =~= Seq::new(BUFF_SIZE as nat, |i: int| 0u8));
        r
    }

    /// Back to idle with an empty buffer.
    pub fn reset(&mut self)
        ensures
            final(self).spec_state() == BusState::Idle,
            final(self).spec_buffer() == Seq::new(BUFF_SIZE as nat, |i: int| 0u8),
            final(self).spec_first(),
    {
        self.state = BusState::Idle;
        self.buffer = [0; BUFF_SIZE];
        self.is_first_trans = true;
        assert(self.buffer@ =~= Seq::new(BUFF_SIZE as nat, |i: int| 0u8));
    }

    /// The bus state.
    pub fn state(&self) -> (r: BusState)
        ensures
            r == self.spec_state(),
            Self::valid_state(r),
    {
        proof {
            use_type_invariant(self);
        }
        self.state
    }

    /// Starts a write of `data` to `address`: the bytes go into the buffer
    /// and the state says that none has been sent.
    pub fn begin_write(&mut self, address: u8, data: &[u8])
        requires
            data@.len() <= BUFF_SIZE,
        ensures
            final(self).spec_state() == BusState::Writing(address, 0, data@.len() as usize),
            final(self).spec_buffer().len() == BUFF_SIZE,
            final(self).spec_buffer().subrange(0, data@.len() as int) == data@,
            final(self).spec_buffer().subrange(data@.len() as int, BUFF_SIZE as int) == old(
                self,
            ).spec_buffer().subrange(data@.len() as int, BUFF_SIZE as int),
            final(self).spec_first() == old(self).spec_first(),
    {
        proof {
            use_type_invariant(&*self);
        }
        let ghost old_buf = self.buffer@;
        let mut i: usize = 0;
        while i < data.len()
            invariant
                i <= data@.len() <= BUFF_SIZE,
                self.buffer@.len() == BUFF_SIZE,
                forall|k: int| 0 <= k < i ==> self.buffer@[k] == data@[k],
                forall|k: int| i <= k < BUFF_SIZE ==> self.buffer@[k] == old_buf[k],
                self.state == old(self).state,
                self.is_first_trans == old(self).is_first_trans,
                Self::valid_state(self.state),
            decreases data@.len() - i,
        {
            self.buffer[i] = data[i];
            i = i + 1;
        }
        self.state = BusState::Writing(address, 0, data.len());
        assert(self.buffer@.subrange(0, data@.len() as int) =~= data@);
        assert(self.buffer@.subrange(data@.len() as int, BUFF_SIZE as int) =~= old_buf.subrange(
            data@.len() as int,
            BUFF_SIZE as int,
        ));
    }

    /// Starts a read of `len` bytes from `address`.
    pub fn begin_read(&mut self, address: u8, len: usize)
        requires
            1 <= len <= BUFF_SIZE,
        ensures
            final(self).spec_state() == BusState::Reading(address, 0, len),
            final(self).spec_buffer() == old(self).spec_buffer(),
            final(self).spec_first() == old(self).spec_first(),
    {
        self.state = BusState::Reading(address, 0, len);
    }

    /// Whether the blocking caller stops waiting: the transfer completed,
    /// is stopping, or failed.
    pub fn is_finished(&self) -> (r: bool)
        ensures
            r == is_finished(self.spec_state()),
    {
        match self.state {
            BusState::Complete | BusState::Stopping | BusState::Error(_) => true,
            _ => false,
        }
    }

    /// Copies the first `out.len()` bytes of the buffer into `out`.
    pub fn received(&self, out: &mut [u8])
        requires
            old(out)@.len() <= BUFF_SIZE,
        ensures
            final(out)@ == self.spec_buffer().subrange(0, old(out)@.len() as int),
    {
        let len = out.len();
        let mut i: usize = 0;
        while i < len
            invariant
                i <= len <= BUFF_SIZE,
                len == old(out)@.len(),
                out@.len() == len,
                self.buffer@.len() == BUFF_SIZE,
                forall|k: int| 0 <= k < i ==> out@[k] == self.buffer@[k],
            decreases len - i,
        {
            out[i] = self.buffer[i];
            i = i + 1;
        }
        assert(out@ =~= self.buffer@.subrange(0, len as int));
    }

    /// Ends the transfer: reports the error it failed with, if any, and
    /// resets the transaction.
    pub fn finish(&mut self) -> (r: Result<(), I2cError>)
        ensures
            old(self).spec_state() matches BusState::Error(e) ==> r == Err::<(), I2cError>(e),
            !(old(self).spec_state() is Error) ==> r is Ok,
            final(self).spec_state() == BusState::Idle,
            final(self).spec_buffer() == Seq::new(BUFF_SIZE as nat, |i: int| 0u8),
            final(self).spec_first(),
    {
        if let BusState::Error(err) = self.state {
            self.reset();
            return Err(err);
        }
        self.reset();
        Ok(())
    }

    /// Transmit end interrupt (after its flag is cleared).
    pub fn on_tei(&mut self)
        ensures
            final(self).spec_state() == tei_next_state(old(self).spec_state()),
            final(self).spec_buffer() == old(self).spec_buffer(),
            final(self).spec_first() == old(self).spec_first(),
    {
        if let BusState::Error(_) = self.state {
            return ;
        }
        match self.state {
            BusState::Writing(_addr, idx, len) => {
                if idx >= len {
                    self.state = BusState::Complete;
                }
            },
            _ => {},
        }
    }

    /// Transmit data empty interrupt. Returns the byte to put in the
    /// transmit register: first the address (shifted, with the write or
    /// read bit), then the bytes of a write in order.
    pub fn on_txi(&mut self) -> (r: Option<u8>)
        ensures
            final(self).spec_buffer() == old(self).spec_buffer(),
            (final(self).spec_state(), final(self).spec_first(), r) == txi_step(
                old(self).spec_state(),
                old(self).spec_first(),
                old(self).spec_buffer(),
            ),
    {
        proof {
            use_type_invariant(&*self);
        }
        if let BusState::Error(_) = self.state {
            return None;
        }
        match self.state {
            BusState::Writing(address, idx, len) => {
                if len > BUFF_SIZE {
                    self.state = BusState::Error(I2cError::Overrun);
                    return None;
                }
                if self.is_first_trans {
                    let addr = address << 1;
                    self.is_first_trans = false;
                    self.state = BusState::Writing(address, idx, len);
                    Some(addr)
                } else if idx < len {
                    let byte = self.buffer[idx];
                    self.state = BusState::Writing(address, idx + 1, len);
                    Some(byte)
                } else {
                    None
                }
            },
            BusState::Reading(address, 0, _len) => {
                if self.is_first_trans {
                    let addr = address << 1;
                    self.is_first_trans = false;
                    Some(addr | 1)
                } else {
                    None
                }
            },
            _ => None,
        }
    }

    /// What the receive interrupt does with the registers (see
    /// `rxi_action_for`); after doing it the handler calls `on_rxi`.
    pub fn rxi_action(&self) -> (r: RxiAction)
        ensures
            r == (if self.spec_state() is Error {
                rxi_idle()
            } else {
                rxi_action_for(self.spec_state())
            }),
            r.store_at matches Some(i) ==> i < BUFF_SIZE,
    {
        proof {
            use_type_invariant(self);
        }
        let idle = RxiAction {
            set_wait: false,
            nack: false,
            dummy_read: false,
            store_at: None,
            clear_wait: false,
        };
        match self.state {
            BusState::Reading(_addr, idx, len) => {
                if len == 1 {
                    RxiAction {
                        set_wait: true,
                        nack: true,
                        dummy_read: true,
                        store_at: Some(idx),
                        clear_wait: false,
                    }
                } else if len == 2 {
                    if idx == 0 {
                        RxiAction { set_wait: true, dummy_read: true, ..idle }
                    } else if idx == 1 {
                        RxiAction { nack: true, store_at: Some(0), ..idle }
                    } else if idx > 2 {
                        idle
                    } else {
                        RxiAction { store_at: Some(1), clear_wait: true, ..idle }
                    }
                } else {
                    let n_bytes_remaining = len - idx;
                    if n_bytes_remaining == 0 {
                        RxiAction { store_at: Some(idx - 1), clear_wait: true, ..idle }
                    } else if n_bytes_remaining == 1 {
                        RxiAction { nack: true, store_at: Some(idx - 1), ..idle }
                    } else if n_bytes_remaining == 2 {
                        RxiAction { set_wait: true, store_at: Some(idx - 1), ..idle }
                    } else if idx == 0 {
                        RxiAction { dummy_read: true, ..idle }
                    } else {
                        RxiAction { store_at: Some(idx - 1), ..idle }
                    }
                }
            },
            _ => idle,
        }
    }

    /// Receive interrupt, after the register accesses of `rxi_action`:
    /// `received` is the byte read into the buffer, when one was read.
    pub fn on_rxi(&mut self, received: u8)
        ensures
            old(self).spec_state() is Error ==> *final(self) == *old(self),
            !(old(self).spec_state() is Error) ==> {
                &&& final(self).spec_state() == rxi_next_state(old(self).spec_state())
                &&& final(self).spec_buffer() == (match rxi_action_for(
                    old(self).spec_state(),
                ).store_at {
                    Some(i) => old(self).spec_buffer().update(i as int, received),
                    None => old(self).spec_buffer(),
                })
            },
            final(self).spec_first() == old(self).spec_first(),
    {
        proof {
            use_type_invariant(&*self);
        }
        if let BusState::Error(_) = self.state {
            return ;
        }
        match self.state {
            BusState::Reading(addr, idx, len) => {
                if len == 1 {
                    self.buffer[idx] = received;
                    self.state = BusState::Complete;
                } else if len == 2 {
                    if idx == 0 {
                        self.state = BusState::Reading(addr, 1, 2);
                    } else if idx == 1 {
                        self.buffer[0] = received;
                        self.state = BusState::Reading(addr, 2, 2);
                    } else if idx > 2 {
                        self.state = BusState::Error(I2cError::Overrun);
                    } else {
                        self.buffer[1] = received;
                        self.state = BusState::Complete;
                    }
                } else {
                    let n_bytes_remaining = len - idx;
                    if n_bytes_remaining == 0 {
                        self.buffer[idx - 1] = received;
                        self.state = BusState::Complete;
                    } else if n_bytes_remaining == 1 || n_bytes_remaining == 2 {
                        self.buffer[idx - 1] = received;
                        self.state = BusState::Reading(addr, idx + 1, len);
                    } else if idx == 0 {
                        self.state = BusState::Reading(addr, 1, len);
                    } else {
                        self.buffer[idx - 1] = received;
                        self.state = BusState::Reading(addr, idx + 1, len);
                    }
                }
            },
            _ => {},
        }
    }

    /// The receive interrupt's register accesses (see `rxi_action`), with
    /// ICMR3 read as `icmr3`.
    pub fn rxi_plan(&self, icmr3: u8) -> (r: RxiPlan)
        ensures
            ({
                let a = if self.spec_state() is Error {
                    rxi_idle()
                } else {
                    rxi_action_for(self.spec_state())
                };
                &&& r.icmr3_count <= 4
                &&& r.icmr3_before@.subrange(0, r.icmr3_count as int) == icmr3_writes_before(
                    a,
                    icmr3,
                )
                &&& r.dummy_read == a.dummy_read
                &&& r.read_byte == a.store_at is Some
                &&& r.icmr3_after == (if a.clear_wait {
                    Some(icmr3_settled(a, icmr3) & !ICMR3_WAIT)
                } else {
                    None
                })
            }),
    {
        let a = self.rxi_action();
        let mut before: [u8; 4] = [0; 4];
        let mut count: usize = 0;
        let mut v = icmr3;
        if a.set_wait {
            v = v | ICMR3_WAIT;
            before[0] = v;
            count = 1;
        }
        if a.nack {
            v = v | ICMR3_ACKWP;
            before[count] = v;
            v = v | ICMR3_ACKBT;
            before[count + 1] = v;
            v = v & !ICMR3_ACKWP;
            before[count + 2] = v;
            count = count + 3;
        }
        assert(before@.subrange(0, count as int) =~= icmr3_writes_before(a, icmr3));
        let after = if a.clear_wait {
            Some(v & !ICMR3_WAIT)
        } else {
            None
        };
        RxiPlan {
            icmr3_before: before,
            icmr3_count: count,
            dummy_read: a.dummy_read,
            read_byte: a.store_at.is_some(),
            icmr3_after: after,
        }
    }

    /// What the blocking reader does after an interrupt.
    pub fn read_wait(&self) -> (r: ReadWait)
        ensures
            r == (match self.spec_state() {
                BusState::Complete => ReadWait::CopyOut,
                BusState::Stopping => ReadWait::Stopped,
                BusState::Error(_) => ReadWait::Failed,
                _ => ReadWait::Pending,
            }),
    {
        match self.state {
            BusState::Complete => ReadWait::CopyOut,
            BusState::Stopping => ReadWait::Stopped,
            BusState::Error(_) => ReadWait::Failed,
            _ => ReadWait::Pending,
        }
    }

    /// Not-acknowledged interrupt (after its flag is cleared).
    pub fn on_nak(&mut self)
        ensures
            final(self).spec_state() == nak_next_state(old(self).spec_state()),
            final(self).spec_buffer() == old(self).spec_buffer(),
            final(self).spec_first() == old(self).spec_first(),
    {
        match self.state {
            BusState::Writing(_, 0, _) | BusState::Reading(_, 0, _) => {
                self.state = BusState::Error(I2cError::NoAcknowledge(NoAcknowledgeSource::Address));
            },
            _ => {
                self.state = BusState::Error(I2cError::NoAcknowledge(NoAcknowledgeSource::Data));
            },
        }
    }
}

/// The bytes that `k` transmit interrupts send, with the state and the
/// address flag they leave behind.
pub open spec fn txi_run(state: BusState, first: bool, buf: Seq<u8>, k: nat) -> (BusState, bool, Seq<u8>)
    decreases k,
{
    if k == 0 {
        (state, first, Seq::empty())
    } else {
        let prev = txi_run(state, first, buf, (k - 1) as nat);
        let step = txi_step(prev.0, prev.1, buf);
        (
            step.0,
            step.1,
            match step.2 {
                Some(b) => prev.2.push(b),
                None => prev.2,
            },
        )
    }
}

/// What a write sends: the first transmit interrupt sends the address with
/// the write bit, each of the next `len` sends the next byte of the buffer,
/// and once all have gone the transmit end interrupt completes the write;
/// until that interrupt the blocking writer keeps waiting.
pub proof fn lemma_write_sends_address_then_data(addr: u8, len: usize, buf: Seq<u8>, k: nat)
    requires
        len <= BUFF_SIZE,
        buf.len() == BUFF_SIZE,
        k <= len,
    ensures
        txi_run(BusState::Writing(addr, 0, len), true, buf, k + 1) == (
            BusState::Writing(addr, k as usize, len),
            false,
            seq![addr << 1u8] + buf.subrange(0, k as int),
        ),
        k == len ==> tei_next_state(
            txi_run(BusState::Writing(addr, 0, len), true, buf, k + 1).0,
        ) == BusState::Complete,
        !is_finished(txi_run(BusState::Writing(addr, 0, len), true, buf, k + 1).0),
    decreases k,
{
    let s0 = BusState::Writing(addr, 0, len);
    if k == 0 {
        assert(txi_run(s0, true, buf, 0) == (s0, true, Seq::<u8>::empty()));
        assert(seq![addr << 1u8] + buf.subrange(0, 0) =~= Seq::<u8>::empty().push(addr << 1u8));
    } else {
        lemma_write_sends_address_then_data(addr, len, buf, (k - 1) as nat);
        let prev = txi_run(s0, true, buf, k);
        assert(prev == (
            BusState::Writing(addr, (k - 1) as usize, len),
            false,
            seq![addr << 1u8] + buf.subrange(0, k - 1),
        ));
        assert(seq![addr << 1u8] + buf.subrange(0, k as int) =~= (seq![addr << 1u8]
            + buf.subrange(0, k - 1)).push(buf[k - 1]));
    }
}

/// The state and buffer after receive interrupts that read the bytes `ds`
/// in turn (a byte is stored only where the interrupt stores one).
pub open spec fn rxi_run(state: BusState, buf: Seq<u8>, ds: Seq<u8>) -> (BusState, Seq<u8>)
    decreases ds.len(),
{
    if ds.len() == 0 {
        (state, buf)
    } else {
        let prev = rxi_run(state, buf, ds.drop_last());
        (
            rxi_next_state(prev.0),
            match rxi_action_for(prev.0).store_at {
                Some(i) => prev.1.update(i as int, ds.last()),
                None => prev.1,
            },
        )
    }
}

proof fn lemma_long_read_prefix(addr: u8, len: usize, buf: Seq<u8>, ds: Seq<u8>, j: int)
    requires
        3 <= len <= BUFF_SIZE,
        buf.len() == BUFF_SIZE,
        ds.len() == len + 1,
        1 <= j <= len + 1,
    ensures
        rxi_run(BusState::Reading(addr, 0, len), buf, ds.subrange(0, j)).0 == (if j == len + 1 {
            BusState::Complete
        } else {
            BusState::Reading(addr, j as usize, len)
        }),
        rxi_run(BusState::Reading(addr, 0, len), buf, ds.subrange(0, j)).1.len() == BUFF_SIZE,
        rxi_run(BusState::Reading(addr, 0, len), buf, ds.subrange(0, j)).1.subrange(0, j - 1)
            == ds.subrange(1, j),
        forall|k: int|
            len <= k < BUFF_SIZE ==> #[trigger] rxi_run(
                BusState::Reading(addr, 0, len),
                buf,
                ds.subrange(0, j),
            ).1[k] == buf[k],
    decreases j,
{
    let s0 = BusState::Reading(addr, 0, len);
    if j == 1 {
        assert(ds.subrange(0, 1).drop_last() =~= Seq::<u8>::empty());
        assert(rxi_run(s0, buf, Seq::<u8>::empty()) == (s0, buf));
        assert(rxi_run(s0, buf, ds.subrange(0, 1)).1.subrange(0, 0) =~= ds.subrange(1, 1));
    } else {
        lemma_long_read_prefix(addr, len, buf, ds, j - 1);
        assert(ds.subrange(0, j).drop_last() =~= ds.subrange(0, j - 1));
        assert(ds.subrange(0, j).last() == ds[j - 1]);
        let prev = rxi_run(s0, buf, ds.subrange(0, j - 1));
        let cur = rxi_run(s0, buf, ds.subrange(0, j));
        assert(cur.1 == prev.1.update(j - 2, ds[j - 1]));
        assert(cur.1.subrange(0, j - 1) =~= ds.subrange(1, j));
    }
}

/// What a read gives back: receive interrupts that read the bytes `ds`
/// complete a read of `len` bytes and leave in the buffer the bytes read
/// after the dummy read — all of `ds` for one byte (whose interrupt does the
/// dummy read and the real one), else all but the first — and the rest of
/// the buffer as it was. The NACK is sent before the last byte is read: in
/// the interrupt that reads it for one byte, in the one before for more;
/// for more than one byte the last interrupt stores the last byte and
/// clears WAIT. No earlier interrupt completes the read: before the `j`th
/// interrupt the read has progressed to `j`; and once complete, a further
/// receive interrupt does nothing and leaves it complete.
pub proof fn lemma_read_gives_back(addr: u8, len: usize, buf: Seq<u8>, ds: Seq<u8>)
    requires
        1 <= len <= BUFF_SIZE,
        buf.len() == BUFF_SIZE,
        ds.len() == (if len == 1 {
            1
        } else {
            len + 1
        }),
    ensures
        rxi_run(BusState::Reading(addr, 0, len), buf, ds).0 == BusState::Complete,
        rxi_run(BusState::Reading(addr, 0, len), buf, ds).1.subrange(0, len as int) == (if len
            == 1 {
            ds
        } else {
            ds.subrange(1, len + 1)
        }),
        rxi_run(BusState::Reading(addr, 0, len), buf, ds).1.subrange(len as int, BUFF_SIZE as int)
            == buf.subrange(len as int, BUFF_SIZE as int),
        len == 1 ==> {
            let a = rxi_action_for(BusState::Reading(addr, 0, len));
            &&& a.nack
            &&& a.store_at == Some(0usize)
        },
        len >= 2 ==> rxi_action_for(
            rxi_run(BusState::Reading(addr, 0, len), buf, ds.subrange(0, len - 1)).0,
        ).nack,
        len >= 2 ==> {
            let a = rxi_action_for(
                rxi_run(BusState::Reading(addr, 0, len), buf, ds.subrange(0, len as int)).0,
            );
            &&& a.clear_wait
            &&& a.store_at == Some((len - 1) as usize)
        },
        forall|j: int|
            0 <= j < ds.len() ==> #[trigger] rxi_run(
                BusState::Reading(addr, 0, len),
                buf,
                ds.subrange(0, j),
            ).0 == BusState::Reading(addr, j as usize, len),
        rxi_next_state(BusState::Complete) == BusState::Complete,
        rxi_action_for(BusState::Complete) == rxi_idle(),
{
    let s0 = BusState::Reading(addr, 0, len);
    assert forall|j: int| 0 <= j < ds.len() implies #[trigger] rxi_run(s0, buf, ds.subrange(0, j)).0
        == BusState::Reading(addr, j as usize, len) by {
        if j == 0 {
            assert(ds.subrange(0, 0) =~= Seq::<u8>::empty());
        } else if len == 2 {
            let d1 = ds.subrange(0, 1);
            assert(d1.drop_last() =~= Seq::<u8>::empty());
            assert(rxi_run(s0, buf, Seq::<u8>::empty()) == (s0, buf));
            if j == 2 {
                assert(ds.subrange(0, 2).drop_last() =~= d1);
            }
        } else if len >= 3 {
            lemma_long_read_prefix(addr, len, buf, ds, j);
        }
    }
    if len == 1 {
        assert(ds.drop_last() =~= Seq::<u8>::empty());
        assert(rxi_run(s0, buf, Seq::<u8>::empty()) == (s0, buf));
        assert(rxi_run(s0, buf, ds).1.subrange(0, 1) =~= ds);
        assert(rxi_run(s0, buf, ds).1.subrange(1, BUFF_SIZE as int) =~= buf.subrange(
            1,
            BUFF_SIZE as int,
        ));
    } else if len == 2 {
        let d1 = ds.subrange(0, 1);
        let d2 = ds.subrange(0, 2);
        assert(d1.drop_last() =~= Seq::<u8>::empty());
        assert(d2.drop_last() =~= d1);
        assert(ds.drop_last() =~= d2);
        assert(rxi_run(s0, buf, Seq::<u8>::empty()) == (s0, buf));
        let r1 = rxi_run(s0, buf, d1);
        assert(r1.0 == BusState::Reading(addr, 1, 2));
        let r2 = rxi_run(s0, buf, d2);
        assert(r2.0 == BusState::Reading(addr, 2, 2));
        assert(rxi_run(s0, buf, ds).1.subrange(0, 2) =~= ds.subrange(1, 3));
        assert(rxi_run(s0, buf, ds).1.subrange(2, BUFF_SIZE as int) =~= buf.subrange(
            2,
            BUFF_SIZE as int,
        ));
    } else {
        lemma_long_read_prefix(addr, len, buf, ds, len + 1);
        lemma_long_read_prefix(addr, len, buf, ds, len - 1);
        lemma_long_read_prefix(addr, len, buf, ds, len as int);
        assert(ds.subrange(0, len + 1) =~= ds);
        assert(rxi_run(s0, buf, ds).1.subrange(len as int, BUFF_SIZE as int) =~= buf.subrange(
            len as int,
            BUFF_SIZE as int,
        ));
    }
}

/// An IIC peripheral: the first of its four consecutive ICU events
/// (receive, transmit, transmit end, error).
pub trait I2cInstance {
    spec fn spec_event_start() -> u8;

    fn interrupt_event_start() -> (r: u8)
        ensures
            r == Self::spec_event_start(),
            r <= 252,
    ;
}

/// IIC0, the Qwiic connector's bus.
pub struct Iic0;

impl I2cInstance for Iic0 {
    open spec fn spec_event_start() -> u8 {
        0x35
    }

    fn interrupt_event_start() -> (r: u8) {
        0x035
    }
}

/// The ICU event numbers of a bus's four interrupts.
#[derive(Debug, Clone, Copy, PartialEq, Eq, Structural)]
pub struct I2cEvents {
    pub rxi: u8,
    pub txi: u8,
    pub tei: u8,
    pub eei: u8,
}

/// ICCR1 bus interface enable bit (ICE, bit 7).
pub const ICCR1_ICE: u8 = 0x80;

/// ICCR1 internal reset bit (IICRST, bit 6).
pub const ICCR1_IICRST: u8 = 0x40;

/// ICMR1 internal clock select field (CKS, bits 4 to 6).
pub const ICMR1_CKS_MASK: u8 = 0x70;

/// Width field of ICBRH and ICBRL (bits 0 to 4).
pub const ICBR_MASK: u8 = 0x1F;

/// ICIER enables of the not-acknowledged, receive, transmit end and transmit
/// data empty interrupts (NAKIE, RIE, TEIE, TIE: bits 4 to 7).
pub const ICIER_BUS_INTERRUPTS: u8 = 0xF0;

/// The IIC registers that bus set-up writes. Going in, the values read;
/// coming out, the values to write, in this order: the three `iccr1_steps`
/// to ICCR1 (interface off, reset asserted, interface on under reset), then
/// `icmr1`, `icbrh`, `icbrl`, `icier`, and last `iccr1` (reset released).
pub struct IicInitRegs {
    pub iccr1: u8,
    pub icmr1: u8,
    pub icbrh: u8,
    pub icbrl: u8,
    pub icier: u8,
    pub iccr1_steps: [u8; 3],
}

/// PFS register of a bus pin after set-up from `v`: driven low as an open
/// drain output, then a pulled-up input, then under peripheral control with
/// the IIC function selected.
pub open spec fn iic_pin_pfs(v: u32) -> u32 {
    let open_drain = moded::<Input, Output<OutputOpenDrain>>(v & !PFS_PODR);
    let pulled_up = with_bit(
        with_bit(moded::<Output<OutputOpenDrain>, Input>(open_drain), PFS_PCR, true),
        PFS_PCR,
        true,
    );
    ((pulled_up | PFS_PMR) & !PFS_PSEL_MASK) | (((IIC_PSEL & 0x1fu8) as u32) << 24u32)
}

/// A set-up bus pin is an input with pull-up and open drain, under
/// peripheral control with the IIC function; its other fields are kept.
pub proof fn lemma_iic_pin_pfs(v: u32)
    ensures
        iic_pin_pfs(v) == (((v & !(PFS_PODR | PFS_PDR)) | PFS_NCODR | PFS_PCR | PFS_PMR)
            & !PFS_PSEL_MASK) | 0x0700_0000u32,
        iic_pin_pfs(v) & PFS_PDR == 0,
        iic_pin_pfs(v) & PFS_PODR == 0,
        iic_pin_pfs(v) & PFS_PCR == PFS_PCR,
        iic_pin_pfs(v) & PFS_NCODR == PFS_NCODR,
        iic_pin_pfs(v) & PFS_PMR == PFS_PMR,
        iic_pin_pfs(v) & PFS_PSEL_MASK == 0x0700_0000u32,
{
    let a = v & !1u32;
    let b = (a | 0x40u32) | 0x4u32;
    let c = ((b & !0x4u32) | 0x10u32) | 0x10u32;
    let d = ((c | 0x1_0000u32) & !0x1F00_0000u32) | ((7u8 & 0x1fu8) as u32) << 24u32;
    assert(0b00111u8 & 0x1fu8 == 7u8) by (bit_vector);
    assert(d == (((v & !(1u32 | 4u32)) | 0x40u32 | 0x10u32 | 0x1_0000u32) & !0x1F00_0000u32)
        | 0x0700_0000u32) by (bit_vector)
        requires
            a == v & !1u32,
            b == (a | 0x40u32) | 0x4u32,
            c == ((b & !0x4u32) | 0x10u32) | 0x10u32,
            d == ((c | 0x1_0000u32) & !0x1F00_0000u32) | ((7u8 & 0x1fu8) as u32) << 24u32,
    ;
    let e = (((v & !(1u32 | 4u32)) | 0x40u32 | 0x10u32 | 0x1_0000u32) & !0x1F00_0000u32)
        | 0x0700_0000u32;
    assert(e & 4u32 == 0 && e & 1u32 == 0 && e & 0x10u32 == 0x10u32 && e & 0x40u32 == 0x40u32
        && e & 0x1_0000u32 == 0x1_0000u32 && e & 0x1F00_0000u32 == 0x0700_0000u32) by (bit_vector)
        requires
            e == (((v & !(1u32 | 4u32)) | 0x40u32 | 0x10u32 | 0x1_0000u32) & !0x1F00_0000u32)
                | 0x0700_0000u32,
    ;
}

/// An I2C bus on peripheral `I` whose pins and registers have been set up;
/// SDA on P401, SCL on P400.
pub struct I2cBus<I: I2cInstance> {
    _phantom: PhantomData<I>,
}

impl<I: I2cInstance> I2cBus<I> {
    /// Takes the peripheral and its two pins and sets the bus up at
    /// 100 kHz: each pin's PFS register (`sda_pfs`, `scl_pfs`) becomes an
    /// open drain, pulled-up input under the IIC function, and `regs` says
    /// what to write to the peripheral, in the order `IicInitRegs` gives:
    /// ICE cleared, IICRST set, ICE set, the clock (CKS, BRH, BRL), the
    /// four interrupt enables, then IICRST cleared. The interrupts to link
    /// to the bus's events are those of `events`.
    pub fn new(
        bus: I,
        sda_pin: Pin<4, 1, Input>,
        scl_pin: Pin<4, 0, Input>,
        sda_pfs: &mut u32,
        scl_pfs: &mut u32,
        regs: &mut IicInitRegs,
    ) -> (r: Self)
        ensures
            *final(sda_pfs) == iic_pin_pfs(*old(sda_pfs)),
            *final(scl_pfs) == iic_pin_pfs(*old(scl_pfs)),
            final(regs).iccr1_steps@ == seq![
                old(regs).iccr1 & !ICCR1_ICE,
                (old(regs).iccr1 & !ICCR1_ICE) | ICCR1_IICRST,
                ((old(regs).iccr1 & !ICCR1_ICE) | ICCR1_IICRST) | ICCR1_ICE,
            ],
            final(regs).iccr1 == (((old(regs).iccr1 & !ICCR1_ICE) | ICCR1_IICRST) | ICCR1_ICE)
                & !ICCR1_IICRST,
            final(regs).iccr1 & ICCR1_ICE == ICCR1_ICE,
            final(regs).iccr1 & ICCR1_IICRST == 0,
            final(regs).icmr1 == (old(regs).icmr1 & !ICMR1_CKS_MASK) | ((CKS_100KHZ & 7u8) << 4u8),
            (final(regs).icmr1 & ICMR1_CKS_MASK) >> 4u8 == CKS_100KHZ,
            final(regs).icbrh == (old(regs).icbrh & !ICBR_MASK) | (BRH_100KHZ & ICBR_MASK),
            final(regs).icbrh & ICBR_MASK == BRH_100KHZ,
            final(regs).icbrl == (old(regs).icbrl & !ICBR_MASK) | (BRL_100KHZ & ICBR_MASK),
            final(regs).icbrl & ICBR_MASK == BRL_100KHZ,
            final(regs).icier == old(regs).icier | ICIER_BUS_INTERRUPTS,
    {
        let _sda = sda_pin.into_open_drain_output(sda_pfs).into_pullup_input(sda_pfs).internal_resistor(
            sda_pfs,
            Pull::Up,
        );
        peripheral_mode(sda_pfs);
        peripheral_select(sda_pfs, IIC_PSEL);
        let _scl = scl_pin.into_open_drain_output(scl_pfs).into_pullup_input(scl_pfs).internal_resistor(
            scl_pfs,
            Pull::Up,
        );
        peripheral_mode(scl_pfs);
        peripheral_select(scl_pfs, IIC_PSEL);

        let v = regs.iccr1;
        let m = regs.icmr1;
        let h = regs.icbrh;
        let l = regs.icbrl;
        let off = v & !ICCR1_ICE;
        let reset = off | ICCR1_IICRST;
        let on = reset | ICCR1_ICE;
        regs.iccr1_steps = [off, reset, on];
        regs.icmr1 = (regs.icmr1 & !ICMR1_CKS_MASK) | ((CKS_100KHZ & 7) << 4);
        regs.icbrh = (regs.icbrh & !ICBR_MASK) | (BRH_100KHZ & ICBR_MASK);
        regs.icbrl = (regs.icbrl & !ICBR_MASK) | (BRL_100KHZ & ICBR_MASK);
        regs.icier = regs.icier | ICIER_BUS_INTERRUPTS;
        regs.iccr1 = on & !ICCR1_IICRST;
        assert({
            &&& ((v & !0x80u8) | 0x40u8 | 0x80u8) & !0x40u8 & 0x80u8 == 0x80u8
            &&& ((v & !0x80u8) | 0x40u8 | 0x80u8) & !0x40u8 & 0x40u8 == 0u8
            &&& (((m & !0x70u8) | ((2u8 & 7u8) << 4u8)) & 0x70u8) >> 4u8 == 2u8
            &&& ((h & !0x1Fu8) | (22u8 & 0x1Fu8)) & 0x1Fu8 == 22u8
            &&& ((l & !0x1Fu8) | (27u8 & 0x1Fu8)) & 0x1Fu8 == 27u8
        }) by (bit_vector);
        I2cBus { _phantom: PhantomData }
    }

    /// The ICU events of the bus's receive, transmit, transmit end and
    /// error interrupts, in that order from the peripheral's first event.
    pub fn events(&self) -> (r: I2cEvents)
        ensures
            r.rxi == I::spec_event_start(),
            r.txi == I::spec_event_start() + 1,
            r.tei == I::spec_event_start() + 2,
            r.eei == I::spec_event_start() + 3,
    {
        let start = I::interrupt_event_start();
        I2cEvents { rxi: start, txi: start + 1, tei: start + 2, eei: start + 3 }
    }
}

/// Kind of an I2C operation.
#[derive(Debug, Clone, Copy, PartialEq, Eq, Structural)]
pub enum OpKind {
    Read,
    Write,
}

/// Operations that are reads or writes.
pub trait Kind {
    fn kind(&self) -> OpKind;
}

} // verus!
