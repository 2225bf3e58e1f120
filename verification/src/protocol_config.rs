//! Protocol-wide configuration: the authority, the identity-registry
//! root, and the authoritative count of agents created.

use vstd::prelude::*;

use crate::address::Address;

verus! {

/// Main protocol configuration.
pub struct ProtocolConfig {
    /// Main wallet authority.
    pub authority: Address,
    /// Root of the external identity registry.
    pub merkle_tree: Address,
    /// Total number of agents created; each agent's sequence number is
    /// taken from this counter, so it is unique per owner.
    pub total_agents: u64,
    /// Protocol version.
    pub version: u8,
    /// Whether the protocol is paused.
    pub paused: bool,
}

/// Parameters for initializing the protocol; the registry geometry is
/// consumed by the external registry, not by the engine.
#[derive(Clone, Copy, Debug)]
pub struct InitializeParams {
    /// Maximum depth of the registry tree.
    pub max_depth: u32,
    /// Maximum buffer size of the registry tree.
    pub max_buffer_size: u32,
}

} // verus!
