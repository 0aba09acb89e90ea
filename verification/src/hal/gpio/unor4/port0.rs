//! Pins of port 0.
use vstd::prelude::*;

use crate::hal::gpio::{GpioExt, Input, Pin};

verus! {

/// Port 0; splitting it hands out each of its pins once, as inputs.
pub struct Port0;

pub type P000<MODE> = Pin<0, 0, MODE>;

pub type P001<MODE> = Pin<0, 1, MODE>;

pub type P002<MODE> = Pin<0, 2, MODE>;

pub type P003<MODE> = Pin<0, 3, MODE>;

pub type P004<MODE> = Pin<0, 4, MODE>;

pub type P010<MODE> = Pin<0, 10, MODE>;

pub type P011<MODE> = Pin<0, 11, MODE>;

pub type P012<MODE> = Pin<0, 12, MODE>;

pub type P013<MODE> = Pin<0, 13, MODE>;

pub type P014<MODE> = Pin<0, 14, MODE>;

pub type P015<MODE> = Pin<0, 15, MODE>;

/// The pins of port 0.
pub struct Parts {
    pub p000: P000<Input>,
    pub p001: P001<Input>,
    pub p002: P002<Input>,
    pub p003: P003<Input>,
    pub p004: P004<Input>,
    pub p010: P010<Input>,
    pub p011: P011<Input>,
    pub p012: P012<Input>,
    pub p013: P013<Input>,
    pub p014: P014<Input>,
    pub p015: P015<Input>,
}

impl GpioExt for Port0 {
    type Parts = Parts;

    fn split(self) -> Parts {
        Parts {
            p000: P000::new(),
            p001: P001::new(),
            p002: P002::new(),
            p003: P003::new(),
            p004: P004::new(),
            p010: P010::new(),
            p011: P011::new(),
            p012: P012::new(),
            p013: P013::new(),
            p014: P014::new(),
            p015: P015::new(),
        }
    }
}

} // verus!
