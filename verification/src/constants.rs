//! Protocol-wide bounds and defaults. Amounts are in lamports, the
//! smallest native currency unit; timestamps and durations are in seconds.

use vstd::prelude::*;

verus! {

/// Maximum number of agents per main wallet.
pub const MAX_AGENTS_PER_WALLET: u16 = 10000;

/// Maximum serialized transaction size for agent operations.
pub const MAX_TRANSACTION_SIZE: usize = 1232;

/// Maximum length for agent names.
pub const MAX_AGENT_NAME_LENGTH: usize = 32;

/// Maximum length for activity reasons.
pub const MAX_REASON_LENGTH: usize = 128;

/// Minimum balance to keep in an agent account.
pub const MIN_AGENT_BALANCE: u64 = 5_000_000;

/// Default daily limit for new agents.
pub const DEFAULT_DAILY_LIMIT: u64 = 1_000_000_000;

/// Default per-transaction limit.
pub const DEFAULT_TX_LIMIT: u64 = 100_000_000;

/// Length of the daily budget window, in seconds.
pub const DAILY_WINDOW_SECONDS: i64 = 86400;

/// True when `a - b` stays within the range of a 64-bit signed integer,
/// so the subtraction the window bookkeeping performs cannot overflow.
pub open spec fn sub_in_range(a: i64, b: i64) -> bool {
    i64::MIN <= a - b <= i64::MAX
}

} // verus!
