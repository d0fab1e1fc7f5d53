//! The money amount type used throughout the transaction engine.

use vstd::prelude::*;

verus! {

/// An amount of money in the smallest unit of account.
#[derive(Clone, Copy, Debug, PartialEq, Eq, Structural)]
pub struct MicroTari(pub u64);

impl MicroTari {
    /// The zero amount.
    pub fn zero() -> (r: MicroTari)
        ensures
            r.0 == 0,
    {
        MicroTari(0)
    }

    /// The raw value of the amount.
    pub fn as_u64(&self) -> (r: u64)
        ensures
            r == self.0,
    {
        self.0
    }

    /// Addition that reports overflow instead of wrapping.
    pub fn checked_add(&self, other: &MicroTari) -> (r: Option<MicroTari>)
        ensures
            self.0 + other.0 <= u64::MAX ==> r == Some(MicroTari((self.0 + other.0) as u64)),
            self.0 + other.0 > u64::MAX ==> r is None,
    {
        match self.0.checked_add(other.0) {
            Some(v) => Some(MicroTari(v)),
            None => None,
        }
    }

    /// Subtraction that reports underflow instead of wrapping.
    pub fn checked_sub(&self, other: &MicroTari) -> (r: Option<MicroTari>)
        ensures
            self.0 >= other.0 ==> r == Some(MicroTari((self.0 - other.0) as u64)),
            self.0 < other.0 ==> r is None,
    {
        if self.0 >= other.0 {
            Some(MicroTari(self.0 - other.0))
        } else {
            None
        }
    }
}

} // verus!
