//! Interrupt numbers of the RA4M1 and the ICU event link registers.
use vstd::prelude::*;

verus! {

/// Interrupt numbers as the vendor's configuration assigns them.
#[allow(non_camel_case_types)]
#[derive(Debug, Clone, Copy, PartialEq, Eq, Structural)]
pub enum IRQn_Type {
    /// invalid vector for inits
    FSP_INVALID_VECTOR,
    /// 1 Reset Vector invoked on Power up and warm reset
    Reset_IRQn,
    /// 2 Non maskable Interrupt cannot be stopped or preempted
    NonMaskableInt_IRQn,
    /// 3 Hard Fault all classes of Fault
    HardFault_IRQn,
    /// 4 Memory Management MPU mismatch, including Access Violation and No Match
    MemoryManagement_IRQn,
    /// 5 Bus Fault Pre-Fetch-, Memory Access, other address/memory Fault
    BusFault_IRQn,
    /// 6 Usage Fault i.e. Undef Instruction, Illegal State Transition
    UsageFault_IRQn,
    /// 7 Secure Fault Interrupt
    SecureFault_IRQn,
    /// 11 System Service Call via SVC instruction
    SVCall_IRQn,
    /// 12 Debug Monitor
    DebugMonitor_IRQn,
    /// 14 Pendable request for system service
    PendSV_IRQn,
    /// 15 System Tick Timer
    SysTick_IRQn,
    /// IIC1 RXI (Receive data full)
    IIC1_RXI_IRQn,
    /// IIC1 TXI (Transmit data empty)
    IIC1_TXI_IRQn,
    /// IIC1 TEI (Transmit end)
    IIC1_TEI_IRQn,
    /// IIC1 ERI (Transfer error)
    IIC1_ERI_IRQn,
    /// SPI1 RXI (Receive buffer full)
    SPI1_RXI_IRQn,
    /// SPI1 TXI (Transmit buffer empty)
    SPI1_TXI_IRQn,
    /// SPI1 TEI (Transmission complete event)
    SPI1_TEI_IRQn,
    /// SPI1 ERI (Error)
    SPI1_ERI_IRQn,
    /// ICU IRQ0 (External pin interrupt 0)
    ICU_IRQ0_IRQn,
    /// ICU IRQ1 (External pin interrupt 1)
    ICU_IRQ1_IRQn,
    /// USBFS INT (USBFS interrupt)
    USBFS_INT_IRQn,
    /// USBFS RESUME (USBFS resume interrupt)
    USBFS_RESUME_IRQn,
    /// USBFS FIFO 0 (DMA transfer request 0)
    USBFS_FIFO_0_IRQn,
    /// USBFS FIFO 1 (DMA transfer request 1)
    USBFS_FIFO_1_IRQn,
    /// RTC ALARM (Alarm interrupt)
    RTC_ALARM_IRQn,
    /// RTC PERIOD (Periodic interrupt)
    RTC_PERIOD_IRQn,
    /// RTC CARRY (Carry interrupt)
    RTC_CARRY_IRQn,
    /// AGT0 INT (AGT interrupt)
    AGT0_INT_IRQn,
    /// SCI0 RXI (Receive data full)
    SCI0_RXI_IRQn,
    /// SCI0 TXI (Transmit data empty)
    SCI0_TXI_IRQn,
    /// SCI0 TEI (Transmit end)
    SCI0_TEI_IRQn,
    /// SCI0 ERI (Receive error)
    SCI0_ERI_IRQn,
    /// SCI1 RXI (Received data full)
    SCI1_RXI_IRQn,
    /// SCI1 TXI (Transmit data empty)
    SCI1_TXI_IRQn,
    /// SCI1 TEI (Transmit end)
    SCI1_TEI_IRQn,
    /// SCI1 ERI (Receive error)
    SCI1_ERI_IRQn,
    /// SCI2 TXI (Transmit data empty)
    SCI2_TXI_IRQn,
    /// SCI2 TEI (Transmit end)
    SCI2_TEI_IRQn,
    /// SCI2 RXI (Received data full)
    SCI2_RXI_IRQn,
    /// SCI2 ERI (Receive error)
    SCI2_ERI_IRQn,
    /// IIC0 RXI (Receive data full)
    IIC0_RXI_IRQn,
    /// IIC0 TXI (Transmit data empty)
    IIC0_TXI_IRQn,
}

impl IRQn_Type {
    pub open spec fn spec_number(self) -> int {
        match self {
            IRQn_Type::FSP_INVALID_VECTOR => -33,
            IRQn_Type::Reset_IRQn => -15,
            IRQn_Type::NonMaskableInt_IRQn => -14,
            IRQn_Type::HardFault_IRQn => -13,
            IRQn_Type::MemoryManagement_IRQn => -12,
            IRQn_Type::BusFault_IRQn => -11,
            IRQn_Type::UsageFault_IRQn => -10,
            IRQn_Type::SecureFault_IRQn => -9,
            IRQn_Type::SVCall_IRQn => -5,
            IRQn_Type::DebugMonitor_IRQn => -4,
            IRQn_Type::PendSV_IRQn => -2,
            IRQn_Type::SysTick_IRQn => -1,
            IRQn_Type::IIC1_RXI_IRQn => 0,
            IRQn_Type::IIC1_TXI_IRQn => 1,
            IRQn_Type::IIC1_TEI_IRQn => 2,
            IRQn_Type::IIC1_ERI_IRQn => 3,
            IRQn_Type::SPI1_RXI_IRQn => 4,
            IRQn_Type::SPI1_TXI_IRQn => 5,
            IRQn_Type::SPI1_TEI_IRQn => 6,
            IRQn_Type::SPI1_ERI_IRQn => 7,
            IRQn_Type::ICU_IRQ0_IRQn => 8,
            IRQn_Type::ICU_IRQ1_IRQn => 9,
            IRQn_Type::USBFS_INT_IRQn => 10,
            IRQn_Type::USBFS_RESUME_IRQn => 11,
            IRQn_Type::USBFS_FIFO_0_IRQn => 12,
            IRQn_Type::USBFS_FIFO_1_IRQn => 13,
            IRQn_Type::RTC_ALARM_IRQn => 14,
            IRQn_Type::RTC_PERIOD_IRQn => 15,
            IRQn_Type::RTC_CARRY_IRQn => 16,
            IRQn_Type::AGT0_INT_IRQn => 17,
            IRQn_Type::SCI0_RXI_IRQn => 18,
            IRQn_Type::SCI0_TXI_IRQn => 19,
            IRQn_Type::SCI0_TEI_IRQn => 20,
            IRQn_Type::SCI0_ERI_IRQn => 21,
            IRQn_Type::SCI1_RXI_IRQn => 22,
            IRQn_Type::SCI1_TXI_IRQn => 23,
            IRQn_Type::SCI1_TEI_IRQn => 24,
            IRQn_Type::SCI1_ERI_IRQn => 25,
            IRQn_Type::SCI2_TXI_IRQn => 26,
            IRQn_Type::SCI2_TEI_IRQn => 27,
            IRQn_Type::SCI2_RXI_IRQn => 28,
            IRQn_Type::SCI2_ERI_IRQn => 29,
            IRQn_Type::IIC0_RXI_IRQn => 30,
            IRQn_Type::IIC0_TXI_IRQn => 31,
        }
    }

    /// The interrupt number (negative for the core's own exceptions).
    pub fn number(&self) -> (r: i8)
        ensures
            r == self.spec_number(),
    {
        match self {
            IRQn_Type::FSP_INVALID_VECTOR => -33,
            IRQn_Type::Reset_IRQn => -15,
            IRQn_Type::NonMaskableInt_IRQn => -14,
            IRQn_Type::HardFault_IRQn => -13,
            IRQn_Type::MemoryManagement_IRQn => -12,
            IRQn_Type::BusFault_IRQn => -11,
            IRQn_Type::UsageFault_IRQn => -10,
            IRQn_Type::SecureFault_IRQn => -9,
            IRQn_Type::SVCall_IRQn => -5,
            IRQn_Type::DebugMonitor_IRQn => -4,
            IRQn_Type::PendSV_IRQn => -2,
            IRQn_Type::SysTick_IRQn => -1,
            IRQn_Type::IIC1_RXI_IRQn => 0,
            IRQn_Type::IIC1_TXI_IRQn => 1,
            IRQn_Type::IIC1_TEI_IRQn => 2,
            IRQn_Type::IIC1_ERI_IRQn => 3,
            IRQn_Type::SPI1_RXI_IRQn => 4,
            IRQn_Type::SPI1_TXI_IRQn => 5,
            IRQn_Type::SPI1_TEI_IRQn => 6,
            IRQn_Type::SPI1_ERI_IRQn => 7,
            IRQn_Type::ICU_IRQ0_IRQn => 8,
            IRQn_Type::ICU_IRQ1_IRQn => 9,
            IRQn_Type::USBFS_INT_IRQn => 10,
            IRQn_Type::USBFS_RESUME_IRQn => 11,
            IRQn_Type::USBFS_FIFO_0_IRQn => 12,
            IRQn_Type::USBFS_FIFO_1_IRQn => 13,
            IRQn_Type::RTC_ALARM_IRQn => 14,
            IRQn_Type::RTC_PERIOD_IRQn => 15,
            IRQn_Type::RTC_CARRY_IRQn => 16,
            IRQn_Type::AGT0_INT_IRQn => 17,
            IRQn_Type::SCI0_RXI_IRQn => 18,
            IRQn_Type::SCI0_TXI_IRQn => 19,
            IRQn_Type::SCI0_TEI_IRQn => 20,
            IRQn_Type::SCI0_ERI_IRQn => 21,
            IRQn_Type::SCI1_RXI_IRQn => 22,
            IRQn_Type::SCI1_TXI_IRQn => 23,
            IRQn_Type::SCI1_TEI_IRQn => 24,
            IRQn_Type::SCI1_ERI_IRQn => 25,
            IRQn_Type::SCI2_TXI_IRQn => 26,
            IRQn_Type::SCI2_TEI_IRQn => 27,
            IRQn_Type::SCI2_RXI_IRQn => 28,
            IRQn_Type::SCI2_ERI_IRQn => 29,
            IRQn_Type::IIC0_RXI_IRQn => 30,
            IRQn_Type::IIC0_TXI_IRQn => 31,
        }
    }
}

/// IELSR interrupt status flag (bit 16).
pub const IELSR_IR: u32 = 0x0001_0000;

/// An IELSR register written from its reset value (0) with event `event`
/// linked to the interrupt.
pub fn ielsr_link(event: u8) -> (r: u32)
    ensures
        r == event as u32,
{
    event as u32
}

/// Clears the interrupt status flag in an IELSR register.
pub fn ielsr_clear_ir(ielsr: &mut u32)
    ensures
        *final(ielsr) == *old(ielsr) & !IELSR_IR,
{
    *ielsr = *ielsr & !IELSR_IR;
}

/// Base address of the IELSR registers.
pub const IELSR_BASE: u32 = 0x4000_6300;

/// Address of IELSR register `n` (0 to 31).
pub fn ielsr_address(n: u32) -> (r: u32)
    requires
        n < 32,
    ensures
        r == IELSR_BASE + 4 * n,
{
    IELSR_BASE + 4 * n
}

/// The event code held in an IELSR register (its low byte).
pub fn ielsr_event_code(ielsr: u32) -> (r: u32)
    ensures
        r == ielsr & 0xFF,
        r < 256,
{
    assert(ielsr & 0xFFu32 < 256) by (bit_vector);
    ielsr & 0xFF
}

} // verus!
