//! Protocol treasury: fee parameters and informational aggregates. Fees
//! never gate authorization.

use vstd::prelude::*;

use crate::address::Address;
use crate::errors::DimmError;

verus! {

/// Treasury account for protocol fees and funds.
pub struct Treasury {
    /// Protocol authority.
    pub authority: Address,
    /// Total fees collected.
    pub total_fees_collected: u64,
    /// Total funds distributed to agents.
    pub total_distributed: u64,
    /// Total funds withdrawn from agents.
    pub total_withdrawn: u64,
    /// Number of active agents.
    pub active_agents: u64,
    /// Protocol fee in basis points (10000 = 100%).
    pub fee_bps: u16,
    /// Minimum fee.
    pub min_fee: u64,
    /// Last fee collection timestamp.
    pub last_fee_collection: i64,
}

impl Treasury {
    /// The fee owed on `amount`: the basis-point share, floored, but never
    /// less than the minimum fee; a share that no longer fits the amount
    /// width is a fatal error, never a silent clamp.
    pub open spec fn spec_fee(&self, amount: u64) -> Result<u64, DimmError> {
        let share = amount * self.fee_bps / 10000;
        if share > u64::MAX {
            Err(DimmError::NumericalOverflow)
        } else if share < self.min_fee {
            Ok(self.min_fee)
        } else {
            Ok(share as u64)
        }
    }

    /// Calculate the fee for a given amount: `max(amount * fee_bps / 10000,
    /// min_fee)`, with the product taken in a wider width first.
    pub fn calculate_fee(&self, amount: u64) -> (r: Result<u64, DimmError>)
        ensures
            r == self.spec_fee(amount),
            r matches Ok(fee) ==> fee >= self.min_fee,
    {
        proof {
            assert((amount as int) * (self.fee_bps as int) <= (u64::MAX as int) * (u16::MAX
                as int)) by (nonlinear_arith)
                requires
                    amount <= u64::MAX,
                    self.fee_bps <= u16::MAX,
            ;
        }
        let product: u128 = (amount as u128) * (self.fee_bps as u128);
        let share: u128 = product / 10000;
        if share > u64::MAX as u128 {
            Err(DimmError::NumericalOverflow)
        } else {
            let fee = share as u64;
            if fee < self.min_fee {
                Ok(self.min_fee)
            } else {
                Ok(fee)
            }
        }
    }
}

} // verus!
