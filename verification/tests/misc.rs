use dimm::address::Address;
use dimm::agent_activity::{ActivityParams, ActivityType};
use dimm::agent_stats::AgentStats;
use dimm::constants::MIN_AGENT_BALANCE;
use dimm::emergency::EmergencyState;
use dimm::errors::DimmError;
use dimm::ops;
use dimm::treasury::Treasury;
use dimm::whitelist::{Whitelist, WhitelistType, MAX_WHITELIST_ADDRESSES};

fn addr(n: u128) -> Address {
    Address { hi: 0, lo: n }
}

fn treasury(fee_bps: u16, min_fee: u64) -> Treasury {
    Treasury {
        authority: addr(1),
        total_fees_collected: 0,
        total_distributed: 0,
        total_withdrawn: 0,
        active_agents: 0,
        fee_bps,
        min_fee,
        last_fee_collection: 0,
    }
}

fn empty_whitelist(enabled: bool) -> Whitelist {
    Whitelist {
        owner: addr(1),
        addresses: vec![],
        enabled,
        whitelist_type: WhitelistType::Destinations,
        last_updated: 0,
    }
}

fn fresh_stats() -> AgentStats {
    AgentStats {
        agent: addr(1),
        successful_transactions: 0,
        failed_transactions: 0,
        sol_spent_transfers: 0,
        sol_spent_swaps: 0,
        sol_spent_nfts: 0,
        sol_spent_staking: 0,
        sol_spent_governance: 0,
        sol_spent_defi: 0,
        avg_transaction_size: 0,
        largest_transaction: 0,
        daily_limit_hits: 0,
        tx_limit_hits: 0,
        total_gas_paid: 0,
        last_activity: 0,
        longest_inactive_period: 0,
        unique_destinations: 0,
    }
}

#[test]
fn fee_is_share_but_at_least_minimum() {
    let t = treasury(50, 10);
    assert_eq!(t.calculate_fee(1_000_000), Ok(5000)); // max(5000, 10)
}

#[test]
fn fee_minimum_binds_small_amounts() {
    let t = treasury(50, 10);
    assert_eq!(t.calculate_fee(100), Ok(10)); // share would be 0
    assert_eq!(t.calculate_fee(0), Ok(10));
}

#[test]
fn fee_truncates_before_comparing() {
    let t = treasury(33, 0);
    // 999 * 33 / 10000 = 3.2967, floored to 3.
    assert_eq!(t.calculate_fee(999), Ok(3));
}

#[test]
fn fee_overflow_is_fatal() {
    // A share above 100% on the largest amount no longer fits u64.
    let t = treasury(20_000, 0);
    assert_eq!(t.calculate_fee(u64::MAX), Err(DimmError::NumericalOverflow));
    // The same parameters on a small amount are fine.
    assert_eq!(t.calculate_fee(10), Ok(20));
}

#[test]
fn disabled_whitelist_allows_any_address() {
    let w = empty_whitelist(false);
    assert!(w.is_whitelisted(&addr(12345)));
    assert!(w.is_whitelisted(&addr(0)));
}

#[test]
fn enabled_whitelist_is_membership() {
    let mut w = empty_whitelist(true);
    w.add_address(addr(5)).unwrap();
    assert!(w.is_whitelisted(&addr(5)));
    assert!(!w.is_whitelisted(&addr(6)));
}

#[test]
fn whitelist_duplicate_insert_is_noop() {
    let mut w = empty_whitelist(true);
    w.add_address(addr(5)).unwrap();
    w.add_address(addr(5)).unwrap();
    assert_eq!(w.addresses.len(), 1);
}

#[test]
fn whitelist_cap_is_enforced() {
    let mut w = empty_whitelist(true);
    for n in 0..MAX_WHITELIST_ADDRESSES {
        w.add_address(addr(n as u128)).unwrap();
    }
    let r = w.add_address(addr(100_000));
    assert_eq!(r, Err(DimmError::MaxAgentsReached));
    assert_eq!(w.addresses.len(), MAX_WHITELIST_ADDRESSES);
}

#[test]
fn whitelist_remove_keeps_others_in_order() {
    let mut w = empty_whitelist(true);
    w.add_address(addr(1)).unwrap();
    w.add_address(addr(2)).unwrap();
    w.add_address(addr(3)).unwrap();
    w.remove_address(&addr(2)).unwrap();
    assert_eq!(w.addresses, vec![addr(1), addr(3)]);
    // Removing an absent address is a no-op.
    w.remove_address(&addr(9)).unwrap();
    assert_eq!(w.addresses, vec![addr(1), addr(3)]);
}

#[test]
fn stats_success_updates_bucket_largest_and_average() {
    let mut s = fresh_stats();
    s.record_transaction(100, true, &ActivityType::Transfer).unwrap();
    s.record_transaction(50, true, &ActivityType::Swap).unwrap();
    assert_eq!(s.successful_transactions, 2);
    assert_eq!(s.sol_spent_transfers, 100);
    assert_eq!(s.sol_spent_swaps, 50);
    assert_eq!(s.largest_transaction, 100);
    assert_eq!(s.avg_transaction_size, 75);
    // Truncating average: (100 + 50 + 1) / 3 = 50.
    s.record_transaction(1, true, &ActivityType::Transfer).unwrap();
    assert_eq!(s.avg_transaction_size, 50);
}

#[test]
fn stats_failure_touches_only_failure_count() {
    let mut s = fresh_stats();
    s.record_transaction(1_000, false, &ActivityType::Transfer).unwrap();
    assert_eq!(s.failed_transactions, 1);
    assert_eq!(s.successful_transactions, 0);
    assert_eq!(s.sol_spent_transfers, 0);
    assert_eq!(s.largest_transaction, 0);
    assert_eq!(s.avg_transaction_size, 0);
}

#[test]
fn stats_funding_has_no_bucket() {
    let mut s = fresh_stats();
    s.record_transaction(100, true, &ActivityType::Funding).unwrap();
    assert_eq!(s.successful_transactions, 1);
    assert_eq!(s.sol_spent_transfers, 0);
    assert_eq!(s.avg_transaction_size, 0); // buckets are all empty
    assert_eq!(s.largest_transaction, 100);
}

#[test]
fn stats_overflow_changes_nothing() {
    let mut s = fresh_stats();
    s.sol_spent_transfers = u64::MAX;
    s.successful_transactions = 3;
    let r = s.record_transaction(1, true, &ActivityType::Transfer);
    assert_eq!(r, Err(DimmError::NumericalOverflow));
    assert_eq!(s.successful_transactions, 3);
    assert_eq!(s.sol_spent_transfers, u64::MAX);
}

#[test]
fn emergency_action_for_authority_and_contacts() {
    let state = EmergencyState {
        authority: addr(1),
        paused: false,
        pause_reason: String::new(),
        paused_at: 0,
        paused_by: addr(1),
        emergency_contacts: vec![addr(2), addr(3)],
        pause_count: 0,
    };
    assert!(state.can_emergency_action(&addr(1)));
    assert!(state.can_emergency_action(&addr(3)));
    assert!(!state.can_emergency_action(&addr(4)));
}

#[test]
fn record_activity_copies_fields_and_stamps_time() {
    let params = ActivityParams {
        activity_type: ActivityType::Swap,
        amount: 77,
        destination: Some(addr(9)),
        reason: "rebalance".to_string(),
        signature: [7u8; 64],
        success: true,
    };
    let a = ops::record_activity(addr(4), params, 123_456).unwrap();
    assert_eq!(a.agent, addr(4));
    assert_eq!(a.activity_type, ActivityType::Swap);
    assert_eq!(a.amount, 77);
    assert_eq!(a.destination, Some(addr(9)));
    assert_eq!(a.reason, "rebalance");
    assert_eq!(a.timestamp, 123_456);
    assert_eq!(a.signature, [7u8; 64]);
    assert!(a.success);
}

#[test]
fn record_activity_rejects_long_reason() {
    let params = ActivityParams {
        activity_type: ActivityType::Other,
        amount: 0,
        destination: None,
        reason: "x".repeat(129),
        signature: [0u8; 64],
        success: false,
    };
    let r = ops::record_activity(addr(4), params, 0);
    assert_eq!(r.err(), Some(DimmError::ReasonTooLong));
}

#[test]
fn fund_agent_requires_positive_amount() {
    assert_eq!(ops::fund_agent(0), Err(DimmError::InvalidAmount));
    assert_eq!(ops::fund_agent(1), Ok(()));
}

#[test]
fn withdraw_keeps_minimum_balance() {
    assert_eq!(
        ops::withdraw_from_agent(0, MIN_AGENT_BALANCE + 100),
        Err(DimmError::InvalidAmount)
    );
    assert_eq!(
        ops::withdraw_from_agent(1, MIN_AGENT_BALANCE - 1),
        Err(DimmError::InsufficientBalance)
    );
    assert_eq!(
        ops::withdraw_from_agent(101, MIN_AGENT_BALANCE + 100),
        Err(DimmError::InsufficientBalance)
    );
    assert_eq!(
        ops::withdraw_from_agent(100, MIN_AGENT_BALANCE + 100),
        Ok(())
    );
}

#[test]
fn error_messages_name_the_rejection() {
    assert!(DimmError::ExceedsDailyLimit.message().contains("daily limit"));
    assert!(DimmError::AgentRevoked.message().contains("revoked"));
    assert!(DimmError::NumericalOverflow.message().contains("overflow"));
}
