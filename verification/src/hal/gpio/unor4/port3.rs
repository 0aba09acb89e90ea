//! Pins of port 3.
use vstd::prelude::*;

use crate::hal::gpio::{GpioExt, Input, Pin};

verus! {

/// Port 3; splitting it hands out each of its pins once, as inputs.
pub struct Port3;

pub type P301<MODE> = Pin<3, 1, MODE>;

pub type P302<MODE> = Pin<3, 2, MODE>;

pub type P303<MODE> = Pin<3, 3, MODE>;

pub type P304<MODE> = Pin<3, 4, MODE>;

/// The pins of port 3.
pub struct Parts {
    pub p301: P301<Input>,
    pub p302: P302<Input>,
    pub p303: P303<Input>,
    pub p304: P304<Input>,
}

impl GpioExt for Port3 {
    type Parts = Parts;

    fn split(self) -> Parts {
        Parts {
            p301: P301::new(),
            p302: P302::new(),
            p303: P303::new(),
            p304: P304::new(),
        }
    }
}

} // verus!
