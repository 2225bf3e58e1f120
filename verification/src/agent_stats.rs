//! Per-agent denormalized statistics: a derived rollup of pipeline
//! outcomes, never authoritative over the agent account.

use vstd::prelude::*;

use crate::address::Address;
use crate::agent_activity::ActivityType;
use crate::errors::DimmError;

verus! {

/// Detailed statistics for one agent.
pub struct AgentStats {
    /// Agent this rollup belongs to.
    pub agent: Address,
    /// Total successful transactions.
    pub successful_transactions: u64,
    /// Total failed transactions.
    pub failed_transactions: u64,
    /// Total spent on transfers.
    pub sol_spent_transfers: u64,
    /// Total spent on swaps.
    pub sol_spent_swaps: u64,
    /// Total spent on NFT operations.
    pub sol_spent_nfts: u64,
    /// Total spent on staking.
    pub sol_spent_staking: u64,
    /// Total spent on governance.
    pub sol_spent_governance: u64,
    /// Total spent on DeFi interactions.
    pub sol_spent_defi: u64,
    /// Average transaction size, truncating.
    pub avg_transaction_size: u64,
    /// Largest single transaction.
    pub largest_transaction: u64,
    /// Times the daily limit was hit.
    pub daily_limit_hits: u32,
    /// Times the transaction limit was hit.
    pub tx_limit_hits: u32,
    /// Total gas fees paid.
    pub total_gas_paid: u64,
    /// Last activity timestamp.
    pub last_activity: i64,
    /// Longest inactive period, in seconds.
    pub longest_inactive_period: i64,
    /// Unique destinations interacted with.
    pub unique_destinations: u32,
}

impl AgentStats {
    /// The category bucket that a successful spend of this type grows;
    /// funding, withdrawal and other operations have no bucket.
    pub open spec fn spec_bucket(&self, activity_type: ActivityType) -> u64 {
        match activity_type {
            ActivityType::Transfer => self.sol_spent_transfers,
            ActivityType::Swap => self.sol_spent_swaps,
            ActivityType::NftOperation => self.sol_spent_nfts,
            ActivityType::Staking => self.sol_spent_staking,
            ActivityType::Governance => self.sol_spent_governance,
            ActivityType::DefiInteraction => self.sol_spent_defi,
            _ => 0,
        }
    }

    /// Whether spends of this type are counted in a category bucket.
    pub open spec fn has_bucket(activity_type: ActivityType) -> bool {
        match activity_type {
            ActivityType::Transfer => true,
            ActivityType::Swap => true,
            ActivityType::NftOperation => true,
            ActivityType::Staking => true,
            ActivityType::Governance => true,
            ActivityType::DefiInteraction => true,
            _ => false,
        }
    }

    /// The stats with `amount` added to the bucket of `activity_type`;
    /// unchanged for a type without a bucket. The addition is the caller's
    /// to bound.
    pub open spec fn spec_with_bucket_added(self, activity_type: ActivityType, amount: u64) -> AgentStats {
        match activity_type {
            ActivityType::Transfer => AgentStats {
                sol_spent_transfers: (self.sol_spent_transfers + amount) as u64,
                ..self
            },
            ActivityType::Swap => AgentStats {
                sol_spent_swaps: (self.sol_spent_swaps + amount) as u64,
                ..self
            },
            ActivityType::NftOperation => AgentStats {
                sol_spent_nfts: (self.sol_spent_nfts + amount) as u64,
                ..self
            },
            ActivityType::Staking => AgentStats {
                sol_spent_staking: (self.sol_spent_staking + amount) as u64,
                ..self
            },
            ActivityType::Governance => AgentStats {
                sol_spent_governance: (self.sol_spent_governance + amount) as u64,
                ..self
            },
            ActivityType::DefiInteraction => AgentStats {
                sol_spent_defi: (self.sol_spent_defi + amount) as u64,
                ..self
            },
            _ => self,
        }
    }

    /// The sum of all six category buckets, as an unbounded integer.
    pub open spec fn bucket_sum(&self) -> int {
        self.sol_spent_transfers + self.sol_spent_swaps + self.sol_spent_nfts
            + self.sol_spent_staking + self.sol_spent_governance + self.sol_spent_defi
    }

    /// The stats after one pipeline outcome: a success grows the success
    /// count and the matching bucket, raises the largest-transaction mark,
    /// and recomputes the truncating average over all buckets; a failure
    /// grows only the failure count. Overflow is a fatal error that leaves
    /// the stats unchanged.
    pub open spec fn spec_record_transaction(
        self,
        amount: u64,
        success: bool,
        activity_type: ActivityType,
    ) -> Result<AgentStats, DimmError> {
        if success {
            if self.successful_transactions + 1 > u64::MAX {
                Err(DimmError::NumericalOverflow)
            } else if Self::has_bucket(activity_type) && self.spec_bucket(activity_type) + amount
                > u64::MAX {
                Err(DimmError::NumericalOverflow)
            } else {
                let counted = AgentStats {
                    successful_transactions: (self.successful_transactions + 1) as u64,
                    ..self
                };
                let bucketed = counted.spec_with_bucket_added(activity_type, amount);
                let marked = if amount > bucketed.largest_transaction {
                    AgentStats { largest_transaction: amount, ..bucketed }
                } else {
                    bucketed
                };
                if marked.bucket_sum() > u64::MAX {
                    Err(DimmError::NumericalOverflow)
                } else {
                    Ok(
                        AgentStats {
                            avg_transaction_size: ((marked.bucket_sum() / (
                            marked.successful_transactions as int)) as u64),
                            ..marked
                        },
                    )
                }
            }
        } else {
            if self.failed_transactions + 1 > u64::MAX {
                Err(DimmError::NumericalOverflow)
            } else {
                Ok(
                    AgentStats {
                        failed_transactions: (self.failed_transactions + 1) as u64,
                        ..self
                    },
                )
            }
        }
    }

    /// Fold one pipeline outcome into the rollup. On success the matching
    /// category bucket grows by `amount`, the largest-transaction mark is
    /// raised, and the average transaction size is recomputed as the
    /// truncating quotient of all buckets by the success count; on failure
    /// only the failure counter grows. On overflow nothing changes.
    pub fn record_transaction(
        &mut self,
        amount: u64,
        success: bool,
        activity_type: &ActivityType,
    ) -> (r: Result<(), DimmError>)
        ensures
            match old(self).spec_record_transaction(amount, success, *activity_type) {
                Ok(s) => r == Ok::<(), DimmError>(()) && *final(self) == s,
                Err(e) => r == Err::<(), DimmError>(e) && *final(self) == *old(self),
            },
    {
        if success {
            let new_successful = match self.successful_transactions.checked_add(1) {
                None => { return Err(DimmError::NumericalOverflow) },
                Some(v) => v,
            };
            let bucket: u64 = match activity_type {
                ActivityType::Transfer => self.sol_spent_transfers,
                ActivityType::Swap => self.sol_spent_swaps,
                ActivityType::NftOperation => self.sol_spent_nfts,
                ActivityType::Staking => self.sol_spent_staking,
                ActivityType::Governance => self.sol_spent_governance,
                ActivityType::DefiInteraction => self.sol_spent_defi,
                _ => 0,
            };
            let has_bucket: bool = match activity_type {
                ActivityType::Transfer => true,
                ActivityType::Swap => true,
                ActivityType::NftOperation => true,
                ActivityType::Staking => true,
                ActivityType::Governance => true,
                ActivityType::DefiInteraction => true,
                _ => false,
            };
            let new_bucket: u64 = if has_bucket {
                match bucket.checked_add(amount) {
                    None => { return Err(DimmError::NumericalOverflow) },
                    Some(v) => v,
                }
            } else {
                bucket
            };
            let transfers = if matches!(activity_type, ActivityType::Transfer) {
                new_bucket
            } else {
                self.sol_spent_transfers
            };
            let swaps = if matches!(activity_type, ActivityType::Swap) {
                new_bucket
            } else {
                self.sol_spent_swaps
            };
            let nfts = if matches!(activity_type, ActivityType::NftOperation) {
                new_bucket
            } else {
                self.sol_spent_nfts
            };
            let staking = if matches!(activity_type, ActivityType::Staking) {
                new_bucket
            } else {
                self.sol_spent_staking
            };
            let governance = if matches!(activity_type, ActivityType::Governance) {
                new_bucket
            } else {
                self.sol_spent_governance
            };
            let defi = if matches!(activity_type, ActivityType::DefiInteraction) {
                new_bucket
            } else {
                self.sol_spent_defi
            };
            let new_largest = if amount > self.largest_transaction {
                amount
            } else {
                self.largest_transaction
            };
            let sum1 = match transfers.checked_add(swaps) {
                None => { return Err(DimmError::NumericalOverflow) },
                Some(v) => v,
            };
            let sum2 = match sum1.checked_add(nfts) {
                None => { return Err(DimmError::NumericalOverflow) },
                Some(v) => v,
            };
            let sum3 = match sum2.checked_add(staking) {
                None => { return Err(DimmError::NumericalOverflow) },
                Some(v) => v,
            };
            let sum4 = match sum3.checked_add(governance) {
                None => { return Err(DimmError::NumericalOverflow) },
                Some(v) => v,
            };
            let total_spent = match sum4.checked_add(defi) {
                None => { return Err(DimmError::NumericalOverflow) },
                Some(v) => v,
            };
            self.successful_transactions = new_successful;
            self.sol_spent_transfers = transfers;
            self.sol_spent_swaps = swaps;
            self.sol_spent_nfts = nfts;
            self.sol_spent_staking = staking;
            self.sol_spent_governance = governance;
            self.sol_spent_defi = defi;
            self.largest_transaction = new_largest;
            self.avg_transaction_size = total_spent / new_successful;
            Ok(())
        } else {
            let new_failed = match self.failed_transactions.checked_add(1) {
                None => { return Err(DimmError::NumericalOverflow) },
                Some(v) => v,
            };
            self.failed_transactions = new_failed;
            Ok(())
        }
    }
}

} // verus!
