//! The agent account: an owner-scoped sub-identity with a per-transaction
//! cap, a rolling daily budget, a permission set and a one-way revocation
//! flag.

use vstd::prelude::*;

use crate::address::Address;
use crate::constants::DAILY_WINDOW_SECONDS;
use crate::constants::sub_in_range;
use crate::errors::DimmError;

verus! {

/// A capability tag an agent may hold.
#[derive(Clone, Copy, Debug, PartialEq, Eq, Structural)]
pub enum AgentPermission {
    /// Transfer funds to any address.
    TransferSol,
    /// Swap tokens on exchanges.
    SwapTokens,
    /// Interact with NFT marketplaces.
    NftOperations,
    /// Stake funds or tokens.
    Staking,
    /// Participate in governance.
    Governance,
    /// Interact with DeFi protocols.
    DefiProtocols,
    /// Create and manage token accounts.
    TokenAccounts,
    /// Execute arbitrary programs.
    ExecutePrograms,
}

/// Agent account state.
pub struct AgentAccount {
    /// Main wallet that owns this agent.
    pub main_wallet: Address,
    /// Agent identifier, unique per main wallet.
    pub agent_id: u64,
    /// Agent name.
    pub name: String,
    /// Permissions currently granted to this agent.
    pub permissions: Vec<AgentPermission>,
    /// Maximum amount per transaction.
    pub max_sol_per_transaction: u64,
    /// Daily spending limit.
    pub daily_limit: u64,
    /// Amount spent in the current daily window.
    pub spent_today: u64,
    /// Timestamp of the last daily reset.
    pub last_daily_reset: i64,
    /// Total amount spent over the agent's lifetime.
    pub total_spent: u64,
    /// Total transactions executed.
    pub total_transactions: u64,
    /// Whether this agent is revoked.
    pub revoked: bool,
    /// Timestamp when the agent was created.
    pub created_at: i64,
    /// Timestamp when the agent was last used.
    pub last_used_at: i64,
}

impl AgentAccount {
    /// The limit configuration is well formed: the daily budget can hold at
    /// least one transaction at the per-transaction cap.
    pub open spec fn limits_valid(&self) -> bool {
        self.daily_limit >= self.max_sol_per_transaction
    }

    /// The daily window has run out at `now` (the boundary is inclusive).
    pub open spec fn window_elapsed(&self, now: i64) -> bool {
        now - self.last_daily_reset >= DAILY_WINDOW_SECONDS
    }

    /// The account after a reset check at `now`: the day's spending is
    /// zeroed and the window restarted exactly when the window has elapsed.
    pub open spec fn spec_reset_daily(self, now: i64) -> AgentAccount {
        if self.window_elapsed(now) {
            AgentAccount { spent_today: 0, last_daily_reset: now, ..self }
        } else {
            self
        }
    }

    /// The amount passes both the per-transaction cap and the daily budget.
    pub open spec fn spec_can_spend(&self, amount: u64) -> bool {
        amount <= self.max_sol_per_transaction && self.spent_today + amount <= self.daily_limit
    }

    /// What the quota check returns: a failed cap or budget is an ordinary
    /// `false`, while an overflowing daily total is a fatal error.
    pub open spec fn spec_can_spend_result(&self, amount: u64) -> Result<bool, DimmError> {
        if amount > self.max_sol_per_transaction {
            Ok(false)
        } else if self.spent_today + amount > u64::MAX {
            Err(DimmError::NumericalOverflow)
        } else {
            Ok(self.spent_today + amount <= self.daily_limit)
        }
    }

    /// The account after booking a spend, or an overflow error; a failed
    /// booking changes nothing.
    pub open spec fn spec_record_spend(self, amount: u64) -> Result<AgentAccount, DimmError> {
        if self.spent_today + amount > u64::MAX {
            Err(DimmError::NumericalOverflow)
        } else if self.total_spent + amount > u64::MAX {
            Err(DimmError::NumericalOverflow)
        } else if self.total_transactions + 1 > u64::MAX {
            Err(DimmError::NumericalOverflow)
        } else {
            Ok(
                AgentAccount {
                    spent_today: (self.spent_today + amount) as u64,
                    total_spent: (self.total_spent + amount) as u64,
                    total_transactions: (self.total_transactions + 1) as u64,
                    ..self
                },
            )
        }
    }

    /// The account after revocation: only the `revoked` flag changes.
    pub open spec fn spec_revoke(self) -> AgentAccount {
        AgentAccount { revoked: true, ..self }
    }

    /// The agent holds the given permission.
    pub open spec fn spec_has_permission(&self, permission: AgentPermission) -> bool {
        self.permissions@.contains(permission)
    }

    /// Zero the day's spending and restart the window when a full day has
    /// passed since the last reset; the boundary is inclusive. Fails only
    /// when the elapsed time itself cannot be computed.
    pub fn check_and_reset_daily_limit(&mut self, current_time: i64) -> (r: Result<(), DimmError>)
        ensures
            sub_in_range(current_time, old(self).last_daily_reset) ==> r == Ok::<(), DimmError>(())
                && *final(self) == old(self).spec_reset_daily(current_time),
            !sub_in_range(current_time, old(self).last_daily_reset) ==> r == Err::<(), DimmError>(
                DimmError::InvalidActivityWindow,
            ) && *final(self) == *old(self),
    {
        match current_time.checked_sub(self.last_daily_reset) {
            None => Err(DimmError::InvalidActivityWindow),
            Some(time_since_reset) => {
                if time_since_reset >= DAILY_WINDOW_SECONDS {
                    self.spent_today = 0;
                    self.last_daily_reset = current_time;
                }
                Ok(())
            },
        }
    }

    /// Whether the agent may spend `amount` now: within the per-transaction
    /// cap and the remaining daily budget.
    pub fn can_spend(&self, amount: u64) -> (r: Result<bool, DimmError>)
        ensures
            r == self.spec_can_spend_result(amount),
            r == Ok::<bool, DimmError>(true) <==> self.spec_can_spend(amount),
    {
        if amount > self.max_sol_per_transaction {
            return Ok(false);
        }
        match self.spent_today.checked_add(amount) {
            None => Err(DimmError::NumericalOverflow),
            Some(new_daily_total) => Ok(new_daily_total <= self.daily_limit),
        }
    }

    /// Book a successful spend: the daily and lifetime totals grow by
    /// `amount` and the transaction count by one, all overflow-checked.
    /// On overflow nothing changes.
    pub fn record_spend(&mut self, amount: u64) -> (r: Result<(), DimmError>)
        ensures
            match old(self).spec_record_spend(amount) {
                Ok(a) => r == Ok::<(), DimmError>(()) && *final(self) == a,
                Err(e) => r == Err::<(), DimmError>(e) && *final(self) == *old(self),
            },
    {
        let new_spent_today = match self.spent_today.checked_add(amount) {
            None => { return Err(DimmError::NumericalOverflow) },
            Some(v) => v,
        };
        let new_total_spent = match self.total_spent.checked_add(amount) {
            None => { return Err(DimmError::NumericalOverflow) },
            Some(v) => v,
        };
        let new_total_transactions = match self.total_transactions.checked_add(1) {
            None => { return Err(DimmError::NumericalOverflow) },
            Some(v) => v,
        };
        self.spent_today = new_spent_today;
        self.total_spent = new_total_spent;
        self.total_transactions = new_total_transactions;
        Ok(())
    }

    /// Whether the agent holds the given permission.
    pub fn has_permission(&self, permission: &AgentPermission) -> (r: bool)
        ensures
            r == self.spec_has_permission(*permission),
    {
        let mut i: usize = 0;
        while i < self.permissions.len()
            invariant
                i <= self.permissions.len(),
                forall|j: int| 0 <= j < i ==> self.permissions@[j] != *permission,
            decreases self.permissions.len() - i,
        {
            if self.permissions[i] == *permission {
                return true;
            }
            i += 1;
        }
        false
    }
}

/// A spend that passed the quota check keeps the day's spending within the
/// daily limit: after any successful booking, `spent_today <= daily_limit`.
pub proof fn lemma_record_spend_within_daily(a: AgentAccount, amount: u64)
    requires
        a.spec_can_spend(amount),
    ensures
        a.spec_record_spend(amount) matches Ok(after) ==> after.spent_today <= after.daily_limit,
{
}

/// Revoking an agent twice yields the same state as revoking it once.
pub proof fn lemma_revoke_idempotent(a: AgentAccount)
    ensures
        a.spec_revoke().spec_revoke() == a.spec_revoke(),
{
}

/// At exactly one full day after the last reset the daily window resets:
/// the boundary is inclusive.
pub proof fn lemma_daily_reset_boundary(a: AgentAccount)
    requires
        a.last_daily_reset + DAILY_WINDOW_SECONDS <= i64::MAX,
    ensures
        ({
            let after = a.spec_reset_daily((a.last_daily_reset + DAILY_WINDOW_SECONDS) as i64);
            after.spent_today == 0 && after.last_daily_reset == a.last_daily_reset
                + DAILY_WINDOW_SECONDS
        }),
{
}

/// Parameters for creating an agent.
#[derive(Debug)]
pub struct CreateAgentParams {
    /// Agent name.
    pub name: String,
    /// Initial permissions.
    pub permissions: Vec<AgentPermission>,
    /// Maximum amount per transaction.
    pub max_sol_per_transaction: u64,
    /// Daily spending limit.
    pub daily_limit: u64,
}

/// Parameters for updating an agent's limits; a field left out keeps its
/// current value.
#[derive(Clone, Copy, Debug)]
pub struct UpdateLimitsParams {
    /// New maximum amount per transaction, if given.
    pub max_sol_per_transaction: Option<u64>,
    /// New daily spending limit, if given.
    pub daily_limit: Option<u64>,
}

} // verus!
