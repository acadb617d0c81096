//! Exact fractional voting power. The fraction is kept as an integer
//! numerator over the epoch's total power; nothing here can round, so
//! every validator computes the identical comparison.

use vstd::prelude::*;

verus! {

/// An exact rational `num / den` of accumulated voting power. `den` is
/// the epoch's total power; `num` is a sum of validator powers, so it
/// can exceed `den` but never overflows its 128 bits.
pub struct FractionalVotingPower {
    pub num: u128,
    pub den: u64,
}

impl FractionalVotingPower {
    pub open spec fn wf(&self) -> bool {
        self.den >= 1
    }

    /// The zero fraction over a positive total.
    pub fn zero(total: u64) -> (r: FractionalVotingPower)
        requires
            total >= 1,
        ensures
            r.num == 0,
            r.den == total,
            r.wf(),
    {
        FractionalVotingPower { num: 0, den: total }
    }

    /// Accumulate one validator's power over the same total.
    pub fn add_power(&mut self, power: u64)
        requires
            old(self).num + power <= u128::MAX,
        ensures
            final(self).num == old(self).num + power,
            final(self).den == old(self).den,
    {
        self.num = self.num + power as u128;
    }

    /// Exact comparison against the two-thirds threshold: holds exactly
    /// when `num / den > 2/3`, i.e. when `3 * num > 2 * den`.
    pub fn exceeds_two_thirds(&self) -> (r: bool)
        requires
            self.wf(),
        ensures
            r == (3 * self.num > 2 * self.den),
    {
        if self.num >= self.den as u128 {
            true
        } else {
            3 * self.num > 2 * (self.den as u128)
        }
    }
}

} // verus!
