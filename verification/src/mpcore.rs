//! Snoop Control Unit registers of the application processing unit.
use vstd::prelude::*;
use crate::bits::{with_bit32, set_bit_u32};
use crate::regs::Register;

verus! {

/// SCU Control Register
pub struct ScuControl(pub Register);

impl ScuControl {
    /// Sets the SCU enable bit (bit 0).
    pub fn start(&mut self)
        ensures
            final(self).0.value == with_bit32(old(self).0.value, 0, true),
            final(self).0.writes@ == old(self).0.writes@.push(final(self).0.value),
    {
        let v = set_bit_u32(self.0.value, 0, true);
        self.0.write(v);
    }
}

/// SCU Invalidate All Registers in Secure State (write only): four ways
/// fields of 4 bits, one per CPU, CPU 0 lowest.
pub struct ScuInvalidate(pub Register);

impl ScuInvalidate {
    /// Invalidates all ways of all four CPUs.
    pub fn invalidate_all_cores(&mut self)
        ensures
            final(self).0.value == 0xFFFF,
            final(self).0.writes@ == old(self).0.writes@.push(0xFFFF),
    {
        self.0.write(0xFFFF);
    }

    /// Invalidates all ways of CPU 1.
    pub fn invalidate_core1(&mut self)
        ensures
            final(self).0.value == 0xF0,
            final(self).0.writes@ == old(self).0.writes@.push(0xF0),
    {
        self.0.write(0xF0);
    }
}

} // verus!
