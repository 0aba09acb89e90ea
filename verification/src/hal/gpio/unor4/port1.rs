//! Pins of port 1.
use vstd::prelude::*;

use crate::hal::gpio::{GpioExt, Input, Pin};

verus! {

/// Port 1; splitting it hands out each of its pins once, as inputs.
pub struct Port1;

pub type P100<MODE> = Pin<1, 0, MODE>;

pub type P101<MODE> = Pin<1, 1, MODE>;

pub type P102<MODE> = Pin<1, 2, MODE>;

pub type P103<MODE> = Pin<1, 3, MODE>;

pub type P104<MODE> = Pin<1, 4, MODE>;

pub type P105<MODE> = Pin<1, 5, MODE>;

pub type P106<MODE> = Pin<1, 6, MODE>;

pub type P107<MODE> = Pin<1, 7, MODE>;

pub type P111<MODE> = Pin<1, 11, MODE>;

pub type P112<MODE> = Pin<1, 12, MODE>;

pub type P113<MODE> = Pin<1, 13, MODE>;

pub type P114<MODE> = Pin<1, 14, MODE>;

pub type P115<MODE> = Pin<1, 15, MODE>;

/// The pins of port 1.
pub struct Parts {
    pub p100: P100<Input>,
    pub p101: P101<Input>,
    pub p102: P102<Input>,
    pub p103: P103<Input>,
    pub p104: P104<Input>,
    pub p105: P105<Input>,
    pub p106: P106<Input>,
    pub p107: P107<Input>,
    pub p111: P111<Input>,
    pub p112: P112<Input>,
    pub p113: P113<Input>,
    pub p114: P114<Input>,
    pub p115: P115<Input>,
}

impl GpioExt for Port1 {
    type Parts = Parts;

    fn split(self) -> Parts {
        Parts {
            p100: P100::new(),
            p101: P101::new(),
            p102: P102::new(),
            p103: P103::new(),
            p104: P104::new(),
            p105: P105::new(),
            p106: P106::new(),
            p107: P107::new(),
            p111: P111::new(),
            p112: P112::new(),
            p113: P113::new(),
            p114: P114::new(),
            p115: P115::new(),
        }
    }
}

} // verus!
