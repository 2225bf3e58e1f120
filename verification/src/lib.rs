//! Bounded, revocable spending authority for delegated agent identities.
//!
//! An owner grants an agent a per-transaction cap, a rolling daily budget,
//! a permission set, a transaction-rate limit, an optional destination
//! allow-list, and further re-delegation to sub-agents. The modules below
//! hold the state records and the authorization-and-quota decision engine;
//! identity anchoring, caller authentication and value settlement are left
//! to the surrounding wiring.

pub mod address;
pub mod agent_account;
pub mod agent_activity;
pub mod agent_stats;
pub mod constants;
pub mod delegation;
pub mod emergency;
pub mod errors;
pub mod ops;
pub mod pipeline;
pub mod protocol_config;
pub mod rate_limit;
pub mod treasury;
pub mod whitelist;
