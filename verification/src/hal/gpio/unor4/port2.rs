//! Pins of port 2.
use vstd::prelude::*;

use crate::hal::gpio::{GpioExt, Input, Pin};

verus! {

/// Port 2; splitting it hands out each of its pins once, as inputs.
pub struct Port2;

pub type P200<MODE> = Pin<2, 0, MODE>;

pub type P204<MODE> = Pin<2, 4, MODE>;

pub type P205<MODE> = Pin<2, 5, MODE>;

pub type P206<MODE> = Pin<2, 6, MODE>;

pub type P212<MODE> = Pin<2, 12, MODE>;

pub type P213<MODE> = Pin<2, 13, MODE>;

pub type P214<MODE> = Pin<2, 14, MODE>;

pub type P215<MODE> = Pin<2, 15, MODE>;

/// The pins of port 2.
pub struct Parts {
    pub p200: P200<Input>,
    pub p204: P204<Input>,
    pub p205: P205<Input>,
    pub p206: P206<Input>,
    pub p212: P212<Input>,
    pub p213: P213<Input>,
    pub p214: P214<Input>,
    pub p215: P215<Input>,
}

impl GpioExt for Port2 {
    type Parts = Parts;

    fn split(self) -> Parts {
        Parts {
            p200: P200::new(),
            p204: P204::new(),
            p205: P205::new(),
            p206: P206::new(),
            p212: P212::new(),
            p213: P213::new(),
            p214: P214::new(),
            p215: P215::new(),
        }
    }
}

/// The pins of port 2 under their older name.
pub type Port2Pins = Parts;

} // verus!
