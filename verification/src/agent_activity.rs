//! The append-only activity log: one immutable record per spend attempt.

use vstd::prelude::*;

use crate::address::Address;

verus! {

/// The category of one agent operation.
#[derive(Clone, Copy, Debug, PartialEq, Eq, Structural)]
pub enum ActivityType {
    /// Funds transfer.
    Transfer,
    /// Token swap.
    Swap,
    /// NFT operation.
    NftOperation,
    /// Staking operation.
    Staking,
    /// Governance vote.
    Governance,
    /// DeFi protocol interaction.
    DefiInteraction,
    /// Agent funded from the main wallet.
    Funding,
    /// Withdrawal to the main wallet.
    Withdrawal,
    /// Other operation.
    Other,
}

/// One immutable record of a spend attempt.
pub struct AgentActivity {
    /// Agent this activity belongs to.
    pub agent: Address,
    /// Activity category.
    pub activity_type: ActivityType,
    /// Amount involved.
    pub amount: u64,
    /// Destination, if applicable.
    pub destination: Option<Address>,
    /// Reason or description.
    pub reason: String,
    /// Timestamp.
    pub timestamp: i64,
    /// Opaque transaction reference.
    pub signature: [u8; 64],
    /// Whether the activity succeeded.
    pub success: bool,
}

/// Parameters for recording one activity.
pub struct ActivityParams {
    /// Activity category.
    pub activity_type: ActivityType,
    /// Amount.
    pub amount: u64,
    /// Destination.
    pub destination: Option<Address>,
    /// Reason.
    pub reason: String,
    /// Opaque transaction reference.
    pub signature: [u8; 64],
    /// Success status.
    pub success: bool,
}

/// Parameters for one transaction through an agent.
pub struct ExecuteTransactionParams {
    /// Category of the transaction.
    pub activity_type: ActivityType,
    /// Amount, if applicable.
    pub amount: u64,
    /// Destination, if applicable.
    pub destination: Option<Address>,
    /// Additional instruction payload, opaque to the engine.
    pub instruction_data: Vec<u8>,
}

} // verus!
