//! Control to activate or deactivate the digital audio interface.

use vstd::prelude::*;
use crate::Register;

verus! {

/// The two-state active control: the register at its address holds a
/// single semantic bit, 1 for active and 0 for inactive.
pub struct Active {
    address: u8,
}

impl Active {
    /// The register address this control writes to.
    pub closed spec fn addr(&self) -> u8 {
        self.address
    }

    pub fn new(address: u8) -> (r: Self)
        ensures
            r.addr() == address,
    {
        Active { address }
    }

    /// Deactivate the interface.
    pub fn inactive(&self) -> (r: Register)
        ensures
            r.address == self.addr(),
            r.value == 0,
    {
        Register { address: self.address, value: 0 }
    }

    /// Activate the interface.
    pub fn active(&self) -> (r: Register)
        ensures
            r.address == self.addr(),
            r.value == 1,
    {
        Register { address: self.address, value: 1 }
    }
}

} // verus!
