//! Per-agent transaction-rate limiting: a minute window, an hour window,
//! and a cooldown entered once either window's cap is hit.

use vstd::prelude::*;

use crate::address::Address;
use crate::constants::sub_in_range;
use crate::errors::DimmError;

verus! {

/// Rate limiting state for one agent.
pub struct RateLimit {
    /// Agent this rate limit belongs to.
    pub agent: Address,
    /// Maximum transactions per minute.
    pub max_tx_per_minute: u16,
    /// Maximum transactions per hour.
    pub max_tx_per_hour: u16,
    /// Start of the current minute window.
    pub minute_window_start: i64,
    /// Transactions in the current minute window.
    pub tx_this_minute: u16,
    /// Start of the current hour window.
    pub hour_window_start: i64,
    /// Transactions in the current hour window.
    pub tx_this_hour: u16,
    /// Cooldown length after a limit is hit, in seconds.
    pub cooldown_seconds: u32,
    /// When the last cooldown started.
    pub last_cooldown_start: i64,
    /// Whether currently in cooldown.
    pub in_cooldown: bool,
    /// How many times this agent has been rate limited.
    pub total_rate_limits: u32,
}

impl RateLimit {
    /// The limiter is inside an unexpired cooldown at `now`.
    pub open spec fn cooling_down(&self, now: i64) -> bool {
        self.in_cooldown && now - self.last_cooldown_start < self.cooldown_seconds as int
    }

    /// The state after the window bookkeeping a check at `now` performs:
    /// an expired cooldown is cleared, and a window that has run out is
    /// restarted with a zero count.
    pub open spec fn spec_advance_windows(self, now: i64) -> RateLimit {
        let cleared = RateLimit { in_cooldown: false, ..self };
        let minute_reset = if now - self.minute_window_start >= 60 {
            RateLimit { minute_window_start: now, tx_this_minute: 0, ..cleared }
        } else {
            cleared
        };
        if now - self.hour_window_start >= 3600 {
            RateLimit { hour_window_start: now, tx_this_hour: 0, ..minute_reset }
        } else {
            minute_reset
        }
    }

    /// All elapsed-time subtractions a check at `now` needs stay in range.
    pub open spec fn windows_in_range(&self, now: i64) -> bool {
        sub_in_range(now, self.minute_window_start) && sub_in_range(now, self.hour_window_start)
    }

    /// The full outcome of a check at `now`: the resulting state and the
    /// verdict, or a fatal error that leaves the state unchanged.
    pub open spec fn spec_can_transact(self, now: i64) -> Result<(RateLimit, bool), DimmError> {
        if self.in_cooldown && !sub_in_range(now, self.last_cooldown_start) {
            Err(DimmError::InvalidActivityWindow)
        } else if self.cooling_down(now) {
            Ok((self, false))
        } else if !self.windows_in_range(now) {
            Err(DimmError::InvalidActivityWindow)
        } else {
            let advanced = self.spec_advance_windows(now);
            if advanced.tx_this_minute >= advanced.max_tx_per_minute || advanced.tx_this_hour
                >= advanced.max_tx_per_hour {
                if advanced.total_rate_limits + 1 > u32::MAX {
                    Err(DimmError::NumericalOverflow)
                } else {
                    Ok(
                        (
                            RateLimit {
                                in_cooldown: true,
                                last_cooldown_start: now,
                                total_rate_limits: (advanced.total_rate_limits + 1) as u32,
                                ..advanced
                            },
                            false,
                        ),
                    )
                }
            } else {
                Ok((advanced, true))
            }
        }
    }

    /// The state after booking one transaction in both windows, or an
    /// overflow error that leaves the state unchanged.
    pub open spec fn spec_record_transaction(self) -> Result<RateLimit, DimmError> {
        if self.tx_this_minute + 1 > u16::MAX {
            Err(DimmError::NumericalOverflow)
        } else if self.tx_this_hour + 1 > u16::MAX {
            Err(DimmError::NumericalOverflow)
        } else {
            Ok(
                RateLimit {
                    tx_this_minute: (self.tx_this_minute + 1) as u16,
                    tx_this_hour: (self.tx_this_hour + 1) as u16,
                    ..self
                },
            )
        }
    }

    /// The verdict a check at `now` would reach, without the bookkeeping:
    /// rejected while cooling down or with a window already at its cap,
    /// and a fatal error when an elapsed time cannot be computed.
    pub open spec fn spec_rate_gate(self, now: i64) -> Result<(), DimmError> {
        if self.in_cooldown && !sub_in_range(now, self.last_cooldown_start) {
            Err(DimmError::InvalidActivityWindow)
        } else if self.cooling_down(now) {
            Err(DimmError::RateLimitExceeded)
        } else if !self.windows_in_range(now) {
            Err(DimmError::InvalidActivityWindow)
        } else {
            let advanced = self.spec_advance_windows(now);
            if advanced.tx_this_minute >= advanced.max_tx_per_minute || advanced.tx_this_hour
                >= advanced.max_tx_per_hour {
                Err(DimmError::RateLimitExceeded)
            } else {
                Ok(())
            }
        }
    }

    /// The verdict of a check at `now`, read without performing the
    /// check's bookkeeping.
    pub fn would_allow(&self, current_time: i64) -> (r: Result<(), DimmError>)
        ensures
            r == self.spec_rate_gate(current_time),
    {
        if self.in_cooldown {
            let cooldown_elapsed = match current_time.checked_sub(self.last_cooldown_start) {
                None => { return Err(DimmError::InvalidActivityWindow) },
                Some(v) => v,
            };
            if cooldown_elapsed < self.cooldown_seconds as i64 {
                return Err(DimmError::RateLimitExceeded);
            }
        }
        let minute_elapsed = match current_time.checked_sub(self.minute_window_start) {
            None => { return Err(DimmError::InvalidActivityWindow) },
            Some(v) => v,
        };
        let hour_elapsed = match current_time.checked_sub(self.hour_window_start) {
            None => { return Err(DimmError::InvalidActivityWindow) },
            Some(v) => v,
        };
        let tx_this_minute: u16 = if minute_elapsed >= 60 {
            0
        } else {
            self.tx_this_minute
        };
        let tx_this_hour: u16 = if hour_elapsed >= 3600 {
            0
        } else {
            self.tx_this_hour
        };
        if tx_this_minute >= self.max_tx_per_minute || tx_this_hour >= self.max_tx_per_hour {
            return Err(DimmError::RateLimitExceeded);
        }
        Ok(())
    }

    /// Whether a transaction is allowed under the rate limits at `now`,
    /// with the bookkeeping of the check folded in: an unexpired cooldown
    /// answers `false` and changes nothing else; otherwise the cooldown is
    /// cleared and elapsed windows restart, and a window already at its cap
    /// enters a new cooldown, counts the event, and answers `false`. A
    /// fatal error changes nothing.
    pub fn can_transact(&mut self, current_time: i64) -> (r: Result<bool, DimmError>)
        ensures
            match old(self).spec_can_transact(current_time) {
                Ok(p) => r == Ok::<bool, DimmError>(p.1) && *final(self) == p.0,
                Err(e) => r == Err::<bool, DimmError>(e) && *final(self) == *old(self),
            },
    {
        if self.in_cooldown {
            let cooldown_elapsed = match current_time.checked_sub(self.last_cooldown_start) {
                None => { return Err(DimmError::InvalidActivityWindow) },
                Some(v) => v,
            };
            if cooldown_elapsed < self.cooldown_seconds as i64 {
                return Ok(false);
            }
        }
        let minute_elapsed = match current_time.checked_sub(self.minute_window_start) {
            None => { return Err(DimmError::InvalidActivityWindow) },
            Some(v) => v,
        };
        let hour_elapsed = match current_time.checked_sub(self.hour_window_start) {
            None => { return Err(DimmError::InvalidActivityWindow) },
            Some(v) => v,
        };
        let new_tx_this_minute: u16 = if minute_elapsed >= 60 {
            0
        } else {
            self.tx_this_minute
        };
        let new_tx_this_hour: u16 = if hour_elapsed >= 3600 {
            0
        } else {
            self.tx_this_hour
        };
        if new_tx_this_minute >= self.max_tx_per_minute || new_tx_this_hour
            >= self.max_tx_per_hour {
            let new_total = match self.total_rate_limits.checked_add(1) {
                None => { return Err(DimmError::NumericalOverflow) },
                Some(v) => v,
            };
            self.in_cooldown = true;
            self.last_cooldown_start = current_time;
            self.total_rate_limits = new_total;
            if minute_elapsed >= 60 {
                self.minute_window_start = current_time;
            }
            self.tx_this_minute = new_tx_this_minute;
            if hour_elapsed >= 3600 {
                self.hour_window_start = current_time;
            }
            self.tx_this_hour = new_tx_this_hour;
            Ok(false)
        } else {
            self.in_cooldown = false;
            if minute_elapsed >= 60 {
                self.minute_window_start = current_time;
            }
            self.tx_this_minute = new_tx_this_minute;
            if hour_elapsed >= 3600 {
                self.hour_window_start = current_time;
            }
            self.tx_this_hour = new_tx_this_hour;
            Ok(true)
        }
    }

    /// Book one transaction in both windows, overflow-checked; on overflow
    /// nothing changes.
    pub fn record_transaction(&mut self) -> (r: Result<(), DimmError>)
        ensures
            match old(self).spec_record_transaction() {
                Ok(s) => r == Ok::<(), DimmError>(()) && *final(self) == s,
                Err(e) => r == Err::<(), DimmError>(e) && *final(self) == *old(self),
            },
    {
        let new_tx_this_minute = match self.tx_this_minute.checked_add(1) {
            None => { return Err(DimmError::NumericalOverflow) },
            Some(v) => v,
        };
        let new_tx_this_hour = match self.tx_this_hour.checked_add(1) {
            None => { return Err(DimmError::NumericalOverflow) },
            Some(v) => v,
        };
        self.tx_this_minute = new_tx_this_minute;
        self.tx_this_hour = new_tx_this_hour;
        Ok(())
    }
}

/// The pure verdict agrees with the folded check: it is `Ok` exactly
/// when a full check at `now` would answer `true`.
pub proof fn lemma_gate_matches_check(r: RateLimit, now: i64)
    ensures
        r.spec_rate_gate(now) is Ok <==> (r.spec_can_transact(now) matches Ok(p) && p.1),
{
}

} // verus!
