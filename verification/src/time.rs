//! Durations and time sources.
use vstd::prelude::*;
use vstd::std_specs::ops::AddSpecImpl;

verus! {

#[derive(Debug, Clone, Copy, PartialEq, Eq, Structural, PartialOrd)]
pub struct Milliseconds(pub u64);

impl core::ops::Add for Milliseconds {
    type Output = Self;

    fn add(self, rhs: Self) -> (r: Self::Output) {
        Milliseconds(self.0 + rhs.0)
    }
}

impl AddSpecImpl for Milliseconds {
    open spec fn obeys_add_spec() -> bool {
        true
    }

    /// The sum must fit: the addition of the two counts overflows otherwise.
    open spec fn add_req(self, rhs: Self) -> bool {
        self.0 + rhs.0 <= u64::MAX
    }

    open spec fn add_spec(self, rhs: Self) -> Self {
        Milliseconds((self.0 + rhs.0) as u64)
    }
}

#[derive(Debug, Clone, Copy, PartialEq, Eq, Structural, PartialOrd)]
pub struct Microseconds(pub u64);

impl core::ops::Add for Microseconds {
    type Output = Self;

    fn add(self, rhs: Self) -> (r: Self::Output) {
        Microseconds(self.0 + rhs.0)
    }
}

impl AddSpecImpl for Microseconds {
    open spec fn obeys_add_spec() -> bool {
        true
    }

    /// The sum must fit: the addition of the two counts overflows otherwise.
    open spec fn add_req(self, rhs: Self) -> bool {
        self.0 + rhs.0 <= u64::MAX
    }

    open spec fn add_spec(self, rhs: Self) -> Self {
        Microseconds((self.0 + rhs.0) as u64)
    }
}

/// A source of the current time in unit `U`.
pub trait TimeSource<U> {
    fn now(&self) -> U;
}

} // verus!
