//! The error taxonomy of the decision engine.

use vstd::prelude::*;

verus! {

/// Every way a request can be rejected. Rejections are non-retryable at
/// this layer and leave the caller's state unchanged.
#[derive(Clone, Copy, Debug, PartialEq, Eq, Structural)]
pub enum DimmError {
    /// Agent name is too long.
    AgentNameTooLong,
    /// Transaction amount exceeds the per-transaction limit.
    ExceedsTransactionLimit,
    /// Transaction would exceed the daily limit.
    ExceedsDailyLimit,
    /// Agent does not have permission for this operation.
    InsufficientPermissions,
    /// Agent is revoked and cannot perform operations.
    AgentRevoked,
    /// Invalid amount specified.
    InvalidAmount,
    /// Insufficient balance in the agent account.
    InsufficientBalance,
    /// Maximum number of agents (or allow-list entries) reached.
    MaxAgentsReached,
    /// Reason string is too long.
    ReasonTooLong,
    /// Invalid merkle proof provided.
    InvalidMerkleProof,
    /// Agent not found in the identity registry.
    AgentNotFound,
    /// Caller is not the main wallet.
    Unauthorized,
    /// Invalid permission specified.
    InvalidPermission,
    /// Daily limit must be greater than or equal to the transaction limit.
    InvalidLimitConfiguration,
    /// Agent account has insufficient funds for the operation.
    InsufficientAgentBalance,
    /// Numerical overflow occurred.
    NumericalOverflow,
    /// Activity window calculation failed.
    InvalidActivityWindow,
    /// Delegation is inactive or expired.
    InvalidDelegation,
    /// Transaction rate limit hit, or still cooling down.
    RateLimitExceeded,
    /// Destination is not on the applicable allow-list.
    DestinationNotWhitelisted,
}

impl DimmError {
    /// A short description of the error, for callers that report it.
    pub fn message(&self) -> String {
        match self {
            DimmError::AgentNameTooLong => "agent name is too long".to_string(),
            DimmError::ExceedsTransactionLimit => {
                "transaction amount exceeds per-transaction limit".to_string()
            },
            DimmError::ExceedsDailyLimit => "transaction would exceed daily limit".to_string(),
            DimmError::InsufficientPermissions => {
                "agent does not have permission for this operation".to_string()
            },
            DimmError::AgentRevoked => "agent is revoked and cannot perform operations".to_string(),
            DimmError::InvalidAmount => "invalid amount specified".to_string(),
            DimmError::InsufficientBalance => {
                "insufficient balance in agent account".to_string()
            },
            DimmError::MaxAgentsReached => "maximum number of agents reached".to_string(),
            DimmError::ReasonTooLong => "reason string is too long".to_string(),
            DimmError::InvalidMerkleProof => "invalid merkle proof provided".to_string(),
            DimmError::AgentNotFound => "agent not found in identity registry".to_string(),
            DimmError::Unauthorized => "caller is not the main wallet".to_string(),
            DimmError::InvalidPermission => "invalid permission specified".to_string(),
            DimmError::InvalidLimitConfiguration => {
                "daily limit must be greater than or equal to transaction limit".to_string()
            },
            DimmError::InsufficientAgentBalance => {
                "agent account has insufficient funds for operation".to_string()
            },
            DimmError::NumericalOverflow => "numerical overflow occurred".to_string(),
            DimmError::InvalidActivityWindow => "activity window calculation failed".to_string(),
            DimmError::InvalidDelegation => "delegation is inactive or expired".to_string(),
            DimmError::RateLimitExceeded => {
                "transaction rate limit hit, or still cooling down".to_string()
            },
            DimmError::DestinationNotWhitelisted => {
                "destination is not on the allow-list".to_string()
            },
        }
    }
}

} // verus!
