use dimm::address::Address;
use dimm::agent_account::{AgentAccount, AgentPermission};
use dimm::agent_activity::{ActivityType, ExecuteTransactionParams};
use dimm::constants::MIN_AGENT_BALANCE;
use dimm::delegation::Delegation;
use dimm::errors::DimmError;
use dimm::pipeline;
use dimm::rate_limit::RateLimit;
use dimm::whitelist::{Whitelist, WhitelistType};

fn addr(n: u128) -> Address {
    Address { hi: 0, lo: n }
}

fn agent() -> AgentAccount {
    AgentAccount {
        main_wallet: addr(1),
        agent_id: 0,
        name: "helper".to_string(),
        permissions: vec![AgentPermission::TransferSol, AgentPermission::SwapTokens],
        max_sol_per_transaction: 100,
        daily_limit: 500,
        spent_today: 0,
        last_daily_reset: 1_000_000,
        total_spent: 0,
        total_transactions: 0,
        revoked: false,
        created_at: 1_000_000,
        last_used_at: 1_000_000,
    }
}

fn lenient_rate() -> RateLimit {
    RateLimit {
        agent: addr(2),
        max_tx_per_minute: 1000,
        max_tx_per_hour: 1000,
        minute_window_start: 1_000_000,
        tx_this_minute: 0,
        hour_window_start: 1_000_000,
        tx_this_hour: 0,
        cooldown_seconds: 300,
        last_cooldown_start: 0,
        in_cooldown: false,
        total_rate_limits: 0,
    }
}

fn transfer(amount: u64) -> ExecuteTransactionParams {
    ExecuteTransactionParams {
        activity_type: ActivityType::Transfer,
        amount,
        destination: Some(addr(7)),
        instruction_data: vec![],
    }
}

fn run(
    account: &mut AgentAccount,
    rate: &mut RateLimit,
    amount: u64,
    now: i64,
) -> Result<(), DimmError> {
    pipeline::execute_transaction(
        account,
        rate,
        None,
        None,
        &transfer(amount),
        u64::MAX,
        now,
    )
}

#[test]
fn spends_fill_daily_budget_then_hit_daily_limit() {
    let mut account = agent();
    let mut rate = lenient_rate();
    let now = 1_000_010;
    for _ in 0..4 {
        run(&mut account, &mut rate, 100, now).unwrap();
    }
    assert_eq!(account.spent_today, 400);
    assert_eq!(account.total_transactions, 4);
    // The budget is inclusive: a fifth spend of 100 reaches exactly 500.
    run(&mut account, &mut rate, 100, now).unwrap();
    assert_eq!(account.spent_today, 500);
    // The next spend would exceed the daily limit and is rejected whole.
    let r = run(&mut account, &mut rate, 100, now);
    assert_eq!(r, Err(DimmError::ExceedsDailyLimit));
    assert_eq!(account.spent_today, 500);
    assert_eq!(account.total_transactions, 5);
    assert!(account.spent_today <= account.daily_limit);
}

#[test]
fn over_cap_rejected_without_any_change() {
    let mut account = agent();
    let mut rate = lenient_rate();
    let now = 1_000_010;
    let r = run(&mut account, &mut rate, 101, now);
    assert_eq!(r, Err(DimmError::ExceedsTransactionLimit));
    assert_eq!(account.spent_today, 0);
    assert_eq!(account.total_spent, 0);
    assert_eq!(account.total_transactions, 0);
    assert_eq!(account.last_used_at, 1_000_000);
    assert_eq!(account.last_daily_reset, 1_000_000);
    assert_eq!(rate.tx_this_minute, 0);
    assert_eq!(rate.tx_this_hour, 0);
    assert!(!rate.in_cooldown);
}

#[test]
fn revoked_agent_is_rejected_first() {
    let mut account = agent();
    account.revoked = true;
    let mut rate = lenient_rate();
    let r = run(&mut account, &mut rate, 1, 1_000_010);
    assert_eq!(r, Err(DimmError::AgentRevoked));
}

#[test]
fn missing_permission_is_rejected() {
    let mut account = agent();
    let mut rate = lenient_rate();
    let params = ExecuteTransactionParams {
        activity_type: ActivityType::Staking,
        amount: 1,
        destination: None,
        instruction_data: vec![],
    };
    let r = pipeline::execute_transaction(
        &mut account,
        &mut rate,
        None,
        None,
        &params,
        u64::MAX,
        1_000_010,
    );
    assert_eq!(r, Err(DimmError::InsufficientPermissions));
}

#[test]
fn balance_reserve_is_enforced() {
    let mut account = agent();
    let mut rate = lenient_rate();
    let r = pipeline::execute_transaction(
        &mut account,
        &mut rate,
        None,
        None,
        &transfer(100),
        MIN_AGENT_BALANCE + 99,
        1_000_010,
    );
    assert_eq!(r, Err(DimmError::InsufficientAgentBalance));
    let r = pipeline::execute_transaction(
        &mut account,
        &mut rate,
        None,
        None,
        &transfer(100),
        MIN_AGENT_BALANCE + 100,
        1_000_010,
    );
    assert_eq!(r, Ok(()));
}

#[test]
fn enabled_whitelist_gates_destination() {
    let mut account = agent();
    let mut rate = lenient_rate();
    let whitelist = Whitelist {
        owner: addr(1),
        addresses: vec![addr(8)],
        enabled: true,
        whitelist_type: WhitelistType::Destinations,
        last_updated: 0,
    };
    let r = pipeline::execute_transaction(
        &mut account,
        &mut rate,
        Some(&whitelist),
        None,
        &transfer(10),
        u64::MAX,
        1_000_010,
    );
    assert_eq!(r, Err(DimmError::DestinationNotWhitelisted));
    assert_eq!(account.total_transactions, 0);

    let allowed = ExecuteTransactionParams {
        destination: Some(addr(8)),
        ..transfer(10)
    };
    let r = pipeline::execute_transaction(
        &mut account,
        &mut rate,
        Some(&whitelist),
        None,
        &allowed,
        u64::MAX,
        1_000_010,
    );
    assert_eq!(r, Ok(()));
}

#[test]
fn expired_delegation_rejected_regardless_of_budget() {
    let mut account = agent();
    let mut rate = lenient_rate();
    let delegation = Delegation {
        parent_agent: addr(1),
        delegated_agent: addr(3),
        delegated_permissions: vec![AgentPermission::TransferSol],
        max_sol_per_transaction: 1_000_000,
        daily_limit: 1_000_000,
        expires_at: 999_999, // already in the past
        active: true,
        created_at: 0,
        total_spent: 0,
        total_transactions: 0,
    };
    assert!(!delegation.is_valid(1_000_010));
    let r = pipeline::execute_transaction(
        &mut account,
        &mut rate,
        None,
        Some(&delegation),
        &transfer(1),
        u64::MAX,
        1_000_010,
    );
    assert_eq!(r, Err(DimmError::InvalidDelegation));
    assert_eq!(account.total_transactions, 0);
}

#[test]
fn delegation_narrows_effective_permissions() {
    let mut account = agent();
    let mut rate = lenient_rate();
    let delegation = Delegation {
        parent_agent: addr(1),
        delegated_agent: addr(3),
        delegated_permissions: vec![AgentPermission::SwapTokens],
        max_sol_per_transaction: 1_000_000,
        daily_limit: 1_000_000,
        expires_at: 0, // never expires
        active: true,
        created_at: 0,
        total_spent: 0,
        total_transactions: 0,
    };
    // The agent holds TransferSol, but the delegation scope does not.
    let r = pipeline::execute_transaction(
        &mut account,
        &mut rate,
        None,
        Some(&delegation),
        &transfer(1),
        u64::MAX,
        1_000_010,
    );
    assert_eq!(r, Err(DimmError::InsufficientPermissions));
}

#[test]
fn rate_limited_request_is_rejected_without_change() {
    let mut account = agent();
    let mut rate = lenient_rate();
    rate.max_tx_per_minute = 2;
    let now = 1_000_010;
    run(&mut account, &mut rate, 10, now).unwrap();
    run(&mut account, &mut rate, 10, now).unwrap();
    let r = run(&mut account, &mut rate, 10, now);
    assert_eq!(r, Err(DimmError::RateLimitExceeded));
    assert_eq!(account.spent_today, 20);
    assert_eq!(account.total_transactions, 2);
    assert_eq!(rate.tx_this_minute, 2);
    assert!(!rate.in_cooldown); // an all-or-nothing rejection commits nothing
}

#[test]
fn pipeline_resets_daily_window_on_success() {
    let mut account = agent();
    account.spent_today = 450;
    let mut rate = lenient_rate();
    // A day later the window resets first, so a spend of 100 fits again.
    let now = 1_000_000 + 86_400;
    run(&mut account, &mut rate, 100, now).unwrap();
    assert_eq!(account.spent_today, 100);
    assert_eq!(account.last_daily_reset, now);
    assert_eq!(account.last_used_at, now);
}

#[test]
fn zero_amount_commits_only_usage_stamp() {
    let mut account = agent();
    let mut rate = lenient_rate();
    let params = ExecuteTransactionParams {
        activity_type: ActivityType::Transfer,
        amount: 0,
        destination: None,
        instruction_data: vec![],
    };
    pipeline::execute_transaction(
        &mut account,
        &mut rate,
        None,
        None,
        &params,
        0,
        1_000_010,
    )
    .unwrap();
    assert_eq!(account.total_transactions, 0);
    assert_eq!(account.last_used_at, 1_000_010);
    assert_eq!(rate.tx_this_minute, 0);
}

#[test]
fn split_authorize_then_commit_matches_execute() {
    let mut account = agent();
    let mut rate = lenient_rate();
    let params = transfer(60);
    let now = 1_000_010;
    pipeline::authorize_transaction(&account, &rate, None, None, &params, u64::MAX, now)
        .unwrap();
    // The pure decision changed nothing.
    assert_eq!(account.spent_today, 0);
    assert_eq!(rate.tx_this_minute, 0);
    // The caller's external effect would run here; then the commit.
    pipeline::commit_transaction(&mut account, &mut rate, params.amount, now).unwrap();
    assert_eq!(account.spent_today, 60);
    assert_eq!(account.total_spent, 60);
    assert_eq!(account.total_transactions, 1);
    assert_eq!(rate.tx_this_minute, 1);
    assert_eq!(rate.tx_this_hour, 1);
}
