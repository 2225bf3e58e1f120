//! The authorization pipeline: the fixed-order checks that decide one
//! spend request, and the bookkeeping committed when it is accepted.
//!
//! The pipeline is all-or-nothing. `authorize_transaction` is a pure
//! check; `commit_transaction` applies every mutation of an accepted
//! request at once. The caller performs the external transfer effect
//! between the two, and commits only when that effect succeeded;
//! `execute_transaction` composes the two for requests that carry no
//! external effect. A rejected request leaves every component unchanged.

use vstd::prelude::*;

use crate::agent_account::AgentAccount;
use crate::agent_account::AgentPermission;
use crate::agent_activity::ActivityType;
use crate::agent_activity::ExecuteTransactionParams;
use crate::constants::DAILY_WINDOW_SECONDS;
use crate::constants::MIN_AGENT_BALANCE;
use crate::constants::sub_in_range;
use crate::delegation::Delegation;
use crate::errors::DimmError;
use crate::rate_limit::RateLimit;
use crate::whitelist::Whitelist;

verus! {

/// The value behind an optional reference.
pub open spec fn deref_opt<T>(o: Option<&T>) -> Option<T> {
    match o {
        Some(r) => Some(*r),
        None => None,
    }
}

/// The permission a request of the given category must hold.
pub open spec fn spec_required_permission(activity_type: ActivityType) -> AgentPermission {
    match activity_type {
        ActivityType::Transfer => AgentPermission::TransferSol,
        ActivityType::Swap => AgentPermission::SwapTokens,
        ActivityType::NftOperation => AgentPermission::NftOperations,
        ActivityType::Staking => AgentPermission::Staking,
        ActivityType::Governance => AgentPermission::Governance,
        ActivityType::DefiInteraction => AgentPermission::DefiProtocols,
        _ => AgentPermission::ExecutePrograms,
    }
}

/// The permission a request of the given category must hold.
pub fn required_permission(activity_type: &ActivityType) -> (r: AgentPermission)
    ensures
        r == spec_required_permission(*activity_type),
{
    match activity_type {
        ActivityType::Transfer => AgentPermission::TransferSol,
        ActivityType::Swap => AgentPermission::SwapTokens,
        ActivityType::NftOperation => AgentPermission::NftOperations,
        ActivityType::Staking => AgentPermission::Staking,
        ActivityType::Governance => AgentPermission::Governance,
        ActivityType::DefiInteraction => AgentPermission::DefiProtocols,
        _ => AgentPermission::ExecutePrograms,
    }
}

/// The permission is in the effective set: held by the agent, and also by
/// the delegation scope when the agent acts as a delegated sub-agent.
pub open spec fn spec_effective_permission(
    account: AgentAccount,
    delegation: Option<Delegation>,
    permission: AgentPermission,
) -> bool {
    account.spec_has_permission(permission) && match delegation {
        Some(d) => d.spec_has_permission(permission),
        None => true,
    }
}

/// The decision on one spend request, in fixed order: a revoked agent,
/// then an invalid delegation, then a missing effective permission, then
/// an uncomputable daily window; a request for a positive amount must
/// further pass the per-transaction cap, the daily budget as it stands
/// after a due reset, the balance reserve, the destination allow-list
/// when one applies, and the rate limiter. The decision changes nothing.
pub open spec fn spec_authorize(
    account: AgentAccount,
    rate: RateLimit,
    whitelist: Option<Whitelist>,
    delegation: Option<Delegation>,
    params: ExecuteTransactionParams,
    agent_balance: u64,
    now: i64,
) -> Result<(), DimmError> {
    if account.revoked {
        Err(DimmError::AgentRevoked)
    } else if delegation matches Some(d) && !d.spec_is_valid(now) {
        Err(DimmError::InvalidDelegation)
    } else if !spec_effective_permission(
        account,
        delegation,
        spec_required_permission(params.activity_type),
    ) {
        Err(DimmError::InsufficientPermissions)
    } else if !sub_in_range(now, account.last_daily_reset) {
        Err(DimmError::InvalidActivityWindow)
    } else if params.amount == 0 {
        Ok(())
    } else {
        let reset = account.spec_reset_daily(now);
        if params.amount > account.max_sol_per_transaction {
            Err(DimmError::ExceedsTransactionLimit)
        } else if reset.spent_today + params.amount > u64::MAX {
            Err(DimmError::NumericalOverflow)
        } else if reset.spent_today + params.amount > account.daily_limit {
            Err(DimmError::ExceedsDailyLimit)
        } else if params.amount + MIN_AGENT_BALANCE > u64::MAX {
            Err(DimmError::NumericalOverflow)
        } else if agent_balance < params.amount + MIN_AGENT_BALANCE {
            Err(DimmError::InsufficientAgentBalance)
        } else if whitelist matches Some(w) && params.destination matches Some(dest)
            && !w.spec_is_whitelisted(dest) {
            Err(DimmError::DestinationNotWhitelisted)
        } else {
            rate.spec_rate_gate(now)
        }
    }
}

/// The bookkeeping an accepted request commits: the daily window reset
/// when due, the spend booked against the daily and lifetime totals, one
/// transaction booked in both rate windows, and the last-used timestamp;
/// a request for a zero amount commits only the reset and the timestamp.
/// A failed commit changes nothing.
pub open spec fn spec_commit(account: AgentAccount, rate: RateLimit, amount: u64, now: i64) -> Result<
    (AgentAccount, RateLimit),
    DimmError,
> {
    if !sub_in_range(now, account.last_daily_reset) {
        Err(DimmError::InvalidActivityWindow)
    } else {
        let reset = account.spec_reset_daily(now);
        if amount == 0 {
            Ok((AgentAccount { last_used_at: now, ..reset }, rate))
        } else {
            match reset.spec_record_spend(amount) {
                Err(e) => Err(e),
                Ok(spent) => if !rate.windows_in_range(now) {
                    Err(DimmError::InvalidActivityWindow)
                } else {
                    match rate.spec_advance_windows(now).spec_record_transaction() {
                        Err(e) => Err(e),
                        Ok(booked) => Ok((AgentAccount { last_used_at: now, ..spent }, booked)),
                    }
                },
            }
        }
    }
}

/// The whole pipeline on one request: the decision, then, when accepted,
/// the committed bookkeeping.
pub open spec fn spec_execute(
    account: AgentAccount,
    rate: RateLimit,
    whitelist: Option<Whitelist>,
    delegation: Option<Delegation>,
    params: ExecuteTransactionParams,
    agent_balance: u64,
    now: i64,
) -> Result<(AgentAccount, RateLimit), DimmError> {
    match spec_authorize(account, rate, whitelist, delegation, params, agent_balance, now) {
        Err(e) => Err(e),
        Ok(()) => spec_commit(account, rate, params.amount, now),
    }
}

/// Decide one spend request without changing any state. The caller
/// performs the external effect only after an `Ok`, and then commits.
pub fn authorize_transaction(
    account: &AgentAccount,
    rate_limit: &RateLimit,
    whitelist: Option<&Whitelist>,
    delegation: Option<&Delegation>,
    params: &ExecuteTransactionParams,
    agent_balance: u64,
    now: i64,
) -> (r: Result<(), DimmError>)
    ensures
        r == spec_authorize(
            *account,
            *rate_limit,
            deref_opt(whitelist),
            deref_opt(delegation),
            *params,
            agent_balance,
            now,
        ),
{
    if account.revoked {
        return Err(DimmError::AgentRevoked);
    }
    match delegation {
        Some(d) => if !d.is_valid(now) {
            return Err(DimmError::InvalidDelegation);
        },
        None => {},
    }
    let required = required_permission(&params.activity_type);
    if !account.has_permission(&required) {
        return Err(DimmError::InsufficientPermissions);
    }
    match delegation {
        Some(d) => if !d.has_permission(&required) {
            return Err(DimmError::InsufficientPermissions);
        },
        None => {},
    }
    let elapsed = match now.checked_sub(account.last_daily_reset) {
        None => { return Err(DimmError::InvalidActivityWindow) },
        Some(v) => v,
    };
    if params.amount == 0 {
        return Ok(());
    }
    let checked_spent: u64 = if elapsed >= DAILY_WINDOW_SECONDS {
        0
    } else {
        account.spent_today
    };
    if params.amount > account.max_sol_per_transaction {
        return Err(DimmError::ExceedsTransactionLimit);
    }
    let new_daily_total = match checked_spent.checked_add(params.amount) {
        None => { return Err(DimmError::NumericalOverflow) },
        Some(v) => v,
    };
    if new_daily_total > account.daily_limit {
        return Err(DimmError::ExceedsDailyLimit);
    }
    let required_balance = match params.amount.checked_add(MIN_AGENT_BALANCE) {
        None => { return Err(DimmError::NumericalOverflow) },
        Some(v) => v,
    };
    if agent_balance < required_balance {
        return Err(DimmError::InsufficientAgentBalance);
    }
    match (whitelist, &params.destination) {
        (Some(w), Some(dest)) => if !w.is_whitelisted(dest) {
            return Err(DimmError::DestinationNotWhitelisted);
        },
        _ => {},
    }
    rate_limit.would_allow(now)
}

/// Commit the bookkeeping of an accepted request, all at once: reset the
/// daily window when due, book the spend and one transaction in both rate
/// windows, and stamp the account as used at `now`. A zero amount books
/// no spend and no transaction. On failure nothing changes.
pub fn commit_transaction(
    account: &mut AgentAccount,
    rate_limit: &mut RateLimit,
    amount: u64,
    now: i64,
) -> (r: Result<(), DimmError>)
    ensures
        match spec_commit(*old(account), *old(rate_limit), amount, now) {
            Ok(p) => r == Ok::<(), DimmError>(()) && *final(account) == p.0 && *final(rate_limit)
                == p.1,
            Err(e) => r == Err::<(), DimmError>(e) && *final(account) == *old(account)
                && *final(rate_limit) == *old(rate_limit),
        },
{
    let elapsed = match now.checked_sub(account.last_daily_reset) {
        None => { return Err(DimmError::InvalidActivityWindow) },
        Some(v) => v,
    };
    let reset_applies = elapsed >= DAILY_WINDOW_SECONDS;
    let base_spent: u64 = if reset_applies {
        0
    } else {
        account.spent_today
    };
    let base_reset: i64 = if reset_applies {
        now
    } else {
        account.last_daily_reset
    };
    if amount == 0 {
        account.spent_today = base_spent;
        account.last_daily_reset = base_reset;
        account.last_used_at = now;
        return Ok(());
    }
    let new_spent_today = match base_spent.checked_add(amount) {
        None => { return Err(DimmError::NumericalOverflow) },
        Some(v) => v,
    };
    let new_total_spent = match account.total_spent.checked_add(amount) {
        None => { return Err(DimmError::NumericalOverflow) },
        Some(v) => v,
    };
    let new_total_transactions = match account.total_transactions.checked_add(1) {
        None => { return Err(DimmError::NumericalOverflow) },
        Some(v) => v,
    };
    let minute_elapsed = match now.checked_sub(rate_limit.minute_window_start) {
        None => { return Err(DimmError::InvalidActivityWindow) },
        Some(v) => v,
    };
    let hour_elapsed = match now.checked_sub(rate_limit.hour_window_start) {
        None => { return Err(DimmError::InvalidActivityWindow) },
        Some(v) => v,
    };
    let base_tx_this_minute: u16 = if minute_elapsed >= 60 {
        0
    } else {
        rate_limit.tx_this_minute
    };
    let base_tx_this_hour: u16 = if hour_elapsed >= 3600 {
        0
    } else {
        rate_limit.tx_this_hour
    };
    let new_tx_this_minute = match base_tx_this_minute.checked_add(1) {
        None => { return Err(DimmError::NumericalOverflow) },
        Some(v) => v,
    };
    let new_tx_this_hour = match base_tx_this_hour.checked_add(1) {
        None => { return Err(DimmError::NumericalOverflow) },
        Some(v) => v,
    };
    account.spent_today = new_spent_today;
    account.last_daily_reset = base_reset;
    account.total_spent = new_total_spent;
    account.total_transactions = new_total_transactions;
    account.last_used_at = now;
    rate_limit.in_cooldown = false;
    if minute_elapsed >= 60 {
        rate_limit.minute_window_start = now;
    }
    rate_limit.tx_this_minute = new_tx_this_minute;
    if hour_elapsed >= 3600 {
        rate_limit.hour_window_start = now;
    }
    rate_limit.tx_this_hour = new_tx_this_hour;
    Ok(())
}

/// Run the whole pipeline on a request that carries no external effect:
/// decide it, and commit its bookkeeping when accepted. All-or-nothing:
/// a rejected request leaves every component exactly as it was, and an
/// accepted spend never pushes the day's spending past the daily limit.
pub fn execute_transaction(
    account: &mut AgentAccount,
    rate_limit: &mut RateLimit,
    whitelist: Option<&Whitelist>,
    delegation: Option<&Delegation>,
    params: &ExecuteTransactionParams,
    agent_balance: u64,
    now: i64,
) -> (r: Result<(), DimmError>)
    ensures
        match spec_execute(
            *old(account),
            *old(rate_limit),
            deref_opt(whitelist),
            deref_opt(delegation),
            *params,
            agent_balance,
            now,
        ) {
            Ok(p) => r == Ok::<(), DimmError>(()) && *final(account) == p.0 && *final(rate_limit)
                == p.1,
            Err(e) => r == Err::<(), DimmError>(e) && *final(account) == *old(account)
                && *final(rate_limit) == *old(rate_limit),
        },
        r == Ok::<(), DimmError>(()) && params.amount > 0 ==> final(account).spent_today
            <= final(account).daily_limit,
{
    match authorize_transaction(
        account,
        rate_limit,
        whitelist,
        delegation,
        params,
        agent_balance,
        now,
    ) {
        Err(e) => Err(e),
        Ok(()) => commit_transaction(account, rate_limit, params.amount, now),
    }
}

/// A request over the per-transaction cap is rejected with the
/// transaction-limit error; the pipeline then changes no component's
/// state. The other checks that come first must pass, or their own error
/// comes first instead.
pub proof fn lemma_over_cap_rejected(
    account: AgentAccount,
    rate: RateLimit,
    whitelist: Option<Whitelist>,
    delegation: Option<Delegation>,
    params: ExecuteTransactionParams,
    agent_balance: u64,
    now: i64,
)
    requires
        params.amount > account.max_sol_per_transaction,
        !account.revoked,
        delegation matches Some(d) ==> d.spec_is_valid(now),
        spec_effective_permission(
            account,
            delegation,
            spec_required_permission(params.activity_type),
        ),
        sub_in_range(now, account.last_daily_reset),
    ensures
        spec_execute(account, rate, whitelist, delegation, params, agent_balance, now)
            == Err::<(AgentAccount, RateLimit), DimmError>(DimmError::ExceedsTransactionLimit),
{
}

/// An inactive or expired delegation is rejected with the delegation
/// error, whatever the requested amount and the remaining sub-budget; the
/// pipeline then changes no component's state.
pub proof fn lemma_invalid_delegation_rejected(
    account: AgentAccount,
    rate: RateLimit,
    whitelist: Option<Whitelist>,
    delegation: Delegation,
    params: ExecuteTransactionParams,
    agent_balance: u64,
    now: i64,
)
    requires
        !account.revoked,
        !delegation.spec_is_valid(now),
    ensures
        spec_execute(account, rate, whitelist, Some(delegation), params, agent_balance, now)
            == Err::<(AgentAccount, RateLimit), DimmError>(DimmError::InvalidDelegation),
{
}

} // verus!
