use vstd::prelude::*;
use crate::outcome::{out_of_gas, is_out_of_gas, EvmResult};

verus! {

/// The gas left to a call. It only ever decreases, and a charge larger than
/// what is left is refused without any change.
#[derive(Clone, Copy, Debug, PartialEq, Eq)]
pub struct GasBudget {
    pub remaining: u64,
}

impl GasBudget {
    /// A budget holding `limit` gas.
    pub fn new(limit: u64) -> (r: GasBudget)
        ensures
            r.remaining == limit,
    {
        GasBudget { remaining: limit }
    }

    /// The gas that is left.
    pub fn remaining(&self) -> (r: u64)
        ensures
            r == self.remaining,
    {
        self.remaining
    }

    /// Charges `amount` if that much is left; otherwise fails with out of
    /// gas and leaves the budget as it was.
    pub fn check_and_charge(&mut self, amount: u64) -> (r: EvmResult)
        ensures
            r.is_ok() <==> amount <= old(self).remaining,
            r.is_ok() ==> final(self).remaining == old(self).remaining - amount,
            r matches Err(f) ==> is_out_of_gas(f) && *final(self) == *old(self),
    {
        if amount > self.remaining {
            return Err(out_of_gas());
        }
        self.remaining = self.remaining - amount;
        Ok(())
    }
}

} // verus!
