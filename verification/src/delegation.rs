//! Delegation from a parent agent to a sub-agent: a permission subset, an
//! independently tracked sub-budget, and a lazily checked expiry.

use vstd::prelude::*;

use crate::address::Address;
use crate::agent_account::AgentPermission;

verus! {

/// A grant from a parent agent to a delegated sub-agent.
pub struct Delegation {
    /// Parent agent.
    pub parent_agent: Address,
    /// Delegated agent (sub-agent).
    pub delegated_agent: Address,
    /// Delegated permissions, a subset of the parent's.
    pub delegated_permissions: Vec<AgentPermission>,
    /// Maximum amount the sub-agent may spend per transaction.
    pub max_sol_per_transaction: u64,
    /// Daily limit for the sub-agent.
    pub daily_limit: u64,
    /// Expiration timestamp; 0 means no expiration.
    pub expires_at: i64,
    /// Whether the delegation is active.
    pub active: bool,
    /// Created timestamp.
    pub created_at: i64,
    /// Total spent by the sub-agent.
    pub total_spent: u64,
    /// Total transactions by the sub-agent.
    pub total_transactions: u64,
}

impl Delegation {
    /// The delegation is active and, when it carries an expiry, that expiry
    /// has not been reached.
    pub open spec fn spec_is_valid(&self, current_time: i64) -> bool {
        self.active && !(self.expires_at > 0 && current_time >= self.expires_at)
    }

    /// The delegated subset holds the given permission.
    pub open spec fn spec_has_permission(&self, permission: AgentPermission) -> bool {
        self.delegated_permissions@.contains(permission)
    }

    /// Whether the delegation is valid at `current_time`: active, and not
    /// past its expiry (an expiry of 0 never expires).
    pub fn is_valid(&self, current_time: i64) -> (r: bool)
        ensures
            r == self.spec_is_valid(current_time),
    {
        if !self.active {
            return false;
        }
        if self.expires_at > 0 && current_time >= self.expires_at {
            return false;
        }
        true
    }

    /// Whether the delegated subset holds the given permission.
    pub fn has_permission(&self, permission: &AgentPermission) -> (r: bool)
        ensures
            r == self.spec_has_permission(*permission),
    {
        let mut i: usize = 0;
        while i < self.delegated_permissions.len()
            invariant
                i <= self.delegated_permissions.len(),
                forall|j: int| 0 <= j < i ==> self.delegated_permissions@[j] != *permission,
            decreases self.delegated_permissions.len() - i,
        {
            if self.delegated_permissions[i] == *permission {
                return true;
            }
            i += 1;
        }
        false
    }
}

} // verus!
