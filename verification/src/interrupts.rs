//! Interrupts that the application binds to its handlers.
use vstd::prelude::*;

verus! {

/// The user-selectable interrupts; 0 to 7 are taken by the bootloader.
#[allow(non_camel_case_types)]
#[derive(Debug, Clone, Copy, PartialEq, Eq, Structural)]
pub enum IRQn_Type {
    USBFS_USBI,
    USBFS_USBR,
    USBFS_D0FIFO,
    USBFS_D1FIFO,
    SCI9_TXI,
    SCI9_TEI,
    SCI9_RXI,
    SCI9_ERI,
}

impl IRQn_Type {
    pub open spec fn spec_number(self) -> int {
        match self {
            IRQn_Type::USBFS_USBI => 0,
            IRQn_Type::USBFS_USBR => 1,
            IRQn_Type::USBFS_D0FIFO => 2,
            IRQn_Type::USBFS_D1FIFO => 3,
            IRQn_Type::SCI9_TXI => 4,
            IRQn_Type::SCI9_TEI => 5,
            IRQn_Type::SCI9_RXI => 6,
            IRQn_Type::SCI9_ERI => 7,
        }
    }

    /// The interrupt number (negative for the core's own exceptions).
    pub fn number(&self) -> (r: i8)
        ensures
            r == self.spec_number(),
    {
        match self {
            IRQn_Type::USBFS_USBI => 0,
            IRQn_Type::USBFS_USBR => 1,
            IRQn_Type::USBFS_D0FIFO => 2,
            IRQn_Type::USBFS_D1FIFO => 3,
            IRQn_Type::SCI9_TXI => 4,
            IRQn_Type::SCI9_TEI => 5,
            IRQn_Type::SCI9_RXI => 6,
            IRQn_Type::SCI9_ERI => 7,
        }
    }
}

} // verus!
