//! A memory-mapped register as the library sees it: its current contents and
//! the values written to it, in order, which the caller stores to the device.
use vstd::prelude::*;

verus! {

pub struct Register {
    /// The register's contents.
    pub value: u32,
    /// The values written so far, oldest first.
    pub writes: Vec<u32>,
}

impl Register {
    /// A register holding `value`, with nothing written yet.
    pub fn new(value: u32) -> (r: Self)
        ensures
            r.value == value,
            r.writes@ == Seq::<u32>::empty(),
    {
        Register { value, writes: Vec::new() }
    }

    /// Writes `v`: the register then holds `v`.
    pub fn write(&mut self, v: u32)
        ensures
            final(self).value == v,
            final(self).writes@ == old(self).writes@.push(v),
    {
        self.value = v;
        self.writes.push(v);
    }
}

} // verus!
