//! Owner-facing operations on the protocol and on single agents: the
//! decision-and-bookkeeping half of each operation. Caller authentication
//! and the actual movement of funds stay with the surrounding wiring; a
//! rejected operation changes no state.

use vstd::prelude::*;

use crate::address::Address;
use crate::agent_account::AgentAccount;
use crate::agent_account::AgentPermission;
use crate::agent_account::CreateAgentParams;
use crate::agent_account::UpdateLimitsParams;
use crate::agent_activity::ActivityParams;
use crate::agent_activity::AgentActivity;
use crate::constants::DAILY_WINDOW_SECONDS;
use crate::constants::MAX_AGENTS_PER_WALLET;
use crate::constants::MAX_AGENT_NAME_LENGTH;
use crate::constants::MAX_REASON_LENGTH;
use crate::constants::MIN_AGENT_BALANCE;
use crate::constants::sub_in_range;
use crate::errors::DimmError;
use crate::protocol_config::ProtocolConfig;
use vstd::string::StrSliceExecFns;

verus! {

/// Set up the protocol: a fresh configuration under the given authority,
/// anchored to the given registry, with no agents yet.
pub fn initialize(authority: Address, merkle_tree: Address) -> (config: ProtocolConfig)
    ensures
        config.authority == authority,
        config.merkle_tree == merkle_tree,
        config.total_agents == 0,
        config.version == 1,
        !config.paused,
{
    ProtocolConfig { authority, merkle_tree, total_agents: 0, version: 1, paused: false }
}

/// Why a creation request is rejected, if it is: an over-long name, a
/// daily limit below the per-transaction cap, or an owner already at the
/// agent cap.
pub open spec fn spec_create_agent_check(config: ProtocolConfig, params: CreateAgentParams) -> Result<(), DimmError> {
    if params.name@.len() > MAX_AGENT_NAME_LENGTH {
        Err(DimmError::AgentNameTooLong)
    } else if params.daily_limit < params.max_sol_per_transaction {
        Err(DimmError::InvalidLimitConfiguration)
    } else if config.total_agents >= MAX_AGENTS_PER_WALLET as u64 {
        Err(DimmError::MaxAgentsReached)
    } else {
        Ok(())
    }
}

/// Create a new agent for `main_wallet`: all counters zeroed, not revoked,
/// sequence number taken from the owner's agent counter, which grows by
/// one. A rejected request leaves the configuration unchanged.
pub fn create_agent(
    config: &mut ProtocolConfig,
    main_wallet: Address,
    params: CreateAgentParams,
    now: i64,
) -> (r: Result<AgentAccount, DimmError>)
    ensures
        match spec_create_agent_check(*old(config), params) {
            Err(e) => r matches Err(got) && got == e && *final(config) == *old(config),
            Ok(()) => r matches Ok(agent) && *final(config) == (ProtocolConfig {
                total_agents: (old(config).total_agents + 1) as u64,
                ..*old(config)
            }) && agent == (AgentAccount {
                main_wallet,
                agent_id: old(config).total_agents,
                name: params.name,
                permissions: params.permissions,
                max_sol_per_transaction: params.max_sol_per_transaction,
                daily_limit: params.daily_limit,
                spent_today: 0,
                last_daily_reset: now,
                total_spent: 0,
                total_transactions: 0,
                revoked: false,
                created_at: now,
                last_used_at: now,
            }),
        },
        r matches Ok(agent) ==> agent.limits_valid(),
{
    if params.name.as_str().unicode_len() > MAX_AGENT_NAME_LENGTH {
        return Err(DimmError::AgentNameTooLong);
    }
    if params.daily_limit < params.max_sol_per_transaction {
        return Err(DimmError::InvalidLimitConfiguration);
    }
    if config.total_agents >= MAX_AGENTS_PER_WALLET as u64 {
        return Err(DimmError::MaxAgentsReached);
    }
    let agent = AgentAccount {
        main_wallet,
        agent_id: config.total_agents,
        name: params.name,
        permissions: params.permissions,
        max_sol_per_transaction: params.max_sol_per_transaction,
        daily_limit: params.daily_limit,
        spent_today: 0,
        last_daily_reset: now,
        total_spent: 0,
        total_transactions: 0,
        revoked: false,
        created_at: now,
        last_used_at: now,
    };
    config.total_agents = config.total_agents + 1;
    Ok(agent)
}

/// Whether a funding request is accepted: any positive amount is; the
/// transfer itself is the caller's effect.
pub fn fund_agent(amount: u64) -> (r: Result<(), DimmError>)
    ensures
        r == (if amount == 0 {
            Err::<(), DimmError>(DimmError::InvalidAmount)
        } else {
            Ok::<(), DimmError>(())
        }),
{
    if amount == 0 {
        return Err(DimmError::InvalidAmount);
    }
    Ok(())
}

/// The outcome of a funding request from the main wallet: the resulting
/// account state, or the rejection. Either quota failure is reported as
/// the daily-limit error; only the daily-window reset survives a success.
pub open spec fn spec_request_sol(
    account: AgentAccount,
    amount: u64,
    reason: Seq<char>,
    now: i64,
) -> Result<AgentAccount, DimmError> {
    if account.revoked {
        Err(DimmError::AgentRevoked)
    } else if amount == 0 {
        Err(DimmError::InvalidAmount)
    } else if reason.len() > MAX_REASON_LENGTH {
        Err(DimmError::ReasonTooLong)
    } else if !sub_in_range(now, account.last_daily_reset) {
        Err(DimmError::InvalidActivityWindow)
    } else {
        let reset = account.spec_reset_daily(now);
        match reset.spec_can_spend_result(amount) {
            Err(e) => Err(e),
            Ok(true) => Ok(reset),
            Ok(false) => Err(DimmError::ExceedsDailyLimit),
        }
    }
}

/// Request funds from the main wallet into the agent account: allowed for
/// an unrevoked agent, a positive amount within the agent's quota, and a
/// reason within bounds. The request only checks the quota; it does not
/// consume it. A rejected request leaves the account unchanged.
pub fn request_sol(account: &mut AgentAccount, amount: u64, reason: &str, now: i64) -> (r: Result<
    (),
    DimmError,
>)
    ensures
        match spec_request_sol(*old(account), amount, reason@, now) {
            Ok(a) => r == Ok::<(), DimmError>(()) && *final(account) == a,
            Err(e) => r == Err::<(), DimmError>(e) && *final(account) == *old(account),
        },
{
    if account.revoked {
        return Err(DimmError::AgentRevoked);
    }
    if amount == 0 {
        return Err(DimmError::InvalidAmount);
    }
    if reason.unicode_len() > MAX_REASON_LENGTH {
        return Err(DimmError::ReasonTooLong);
    }
    let elapsed = match now.checked_sub(account.last_daily_reset) {
        None => { return Err(DimmError::InvalidActivityWindow) },
        Some(v) => v,
    };
    let reset_applies = elapsed >= DAILY_WINDOW_SECONDS;
    let checked_spent: u64 = if reset_applies {
        0
    } else {
        account.spent_today
    };
    if amount > account.max_sol_per_transaction {
        return Err(DimmError::ExceedsDailyLimit);
    }
    let new_daily_total = match checked_spent.checked_add(amount) {
        None => { return Err(DimmError::NumericalOverflow) },
        Some(v) => v,
    };
    if new_daily_total > account.daily_limit {
        return Err(DimmError::ExceedsDailyLimit);
    }
    if reset_applies {
        account.spent_today = 0;
        account.last_daily_reset = now;
    }
    Ok(())
}

/// Replace the agent's permission set; nothing else changes.
pub fn update_permissions(account: &mut AgentAccount, new_permissions: Vec<AgentPermission>) -> (r:
    Result<(), DimmError>)
    ensures
        r == Ok::<(), DimmError>(()),
        *final(account) == (AgentAccount { permissions: new_permissions, ..*old(account) }),
{
    account.permissions = new_permissions;
    Ok(())
}

/// Revoke the agent: a one-way transition; revoking an already revoked
/// agent changes nothing.
pub fn revoke_agent(account: &mut AgentAccount) -> (r: Result<(), DimmError>)
    ensures
        r == Ok::<(), DimmError>(()),
        *final(account) == old(account).spec_revoke(),
        final(account).revoked,
{
    account.revoked = true;
    Ok(())
}

/// Whether a withdrawal of `amount` from an agent holding `agent_balance`
/// is accepted: the amount must be positive and leave at least the minimum
/// balance behind; the transfer itself is the caller's effect.
pub fn withdraw_from_agent(amount: u64, agent_balance: u64) -> (r: Result<(), DimmError>)
    ensures
        r == (if amount == 0 {
            Err::<(), DimmError>(DimmError::InvalidAmount)
        } else if agent_balance < MIN_AGENT_BALANCE || amount > agent_balance
            - MIN_AGENT_BALANCE {
            Err::<(), DimmError>(DimmError::InsufficientBalance)
        } else {
            Ok::<(), DimmError>(())
        }),
{
    if amount == 0 {
        return Err(DimmError::InvalidAmount);
    }
    let available_balance = match agent_balance.checked_sub(MIN_AGENT_BALANCE) {
        None => { return Err(DimmError::InsufficientBalance) },
        Some(v) => v,
    };
    if amount > available_balance {
        return Err(DimmError::InsufficientBalance);
    }
    Ok(())
}

/// The merged limit configuration, or the rejection: a merged result whose
/// daily limit falls below its per-transaction cap is rejected whole,
/// never applied partially.
pub open spec fn spec_update_limits(account: AgentAccount, params: UpdateLimitsParams) -> Result<
    AgentAccount,
    DimmError,
> {
    let new_max = match params.max_sol_per_transaction {
        Some(v) => v,
        None => account.max_sol_per_transaction,
    };
    let new_daily = match params.daily_limit {
        Some(v) => v,
        None => account.daily_limit,
    };
    if new_daily >= new_max {
        Ok(AgentAccount { max_sol_per_transaction: new_max, daily_limit: new_daily, ..account })
    } else {
        Err(DimmError::InvalidLimitConfiguration)
    }
}

/// Update the agent's limits: fields left out keep their values, and the
/// merged configuration is checked whole before anything is applied.
pub fn update_limits(account: &mut AgentAccount, params: UpdateLimitsParams) -> (r: Result<
    (),
    DimmError,
>)
    ensures
        match spec_update_limits(*old(account), params) {
            Ok(a) => r == Ok::<(), DimmError>(()) && *final(account) == a,
            Err(e) => r == Err::<(), DimmError>(e) && *final(account) == *old(account),
        },
        r matches Ok(u) ==> final(account).limits_valid(),
{
    let new_max = match params.max_sol_per_transaction {
        Some(v) => v,
        None => account.max_sol_per_transaction,
    };
    let new_daily = match params.daily_limit {
        Some(v) => v,
        None => account.daily_limit,
    };
    if new_daily < new_max {
        return Err(DimmError::InvalidLimitConfiguration);
    }
    account.max_sol_per_transaction = new_max;
    account.daily_limit = new_daily;
    Ok(())
}

/// Write one immutable activity record for an agent; only an over-long
/// reason is rejected.
pub fn record_activity(agent: Address, params: ActivityParams, now: i64) -> (r: Result<
    AgentActivity,
    DimmError,
>)
    ensures
        params.reason@.len() > MAX_REASON_LENGTH ==> (r matches Err(e) && e
            == DimmError::ReasonTooLong),
        params.reason@.len() <= MAX_REASON_LENGTH ==> (r matches Ok(a) && a.agent == agent
            && a.activity_type == params.activity_type && a.amount == params.amount
            && a.destination == params.destination && a.reason == params.reason && a.timestamp
            == now && a.signature == params.signature && a.success == params.success),
{
    if params.reason.as_str().unicode_len() > MAX_REASON_LENGTH {
        return Err(DimmError::ReasonTooLong);
    }
    Ok(
        AgentActivity {
            agent,
            activity_type: params.activity_type,
            amount: params.amount,
            destination: params.destination,
            reason: params.reason,
            timestamp: now,
            signature: params.signature,
            success: params.success,
        },
    )
}

} // verus!
