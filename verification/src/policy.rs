//! The withdrawal policy of a position: a cooldown between withdrawals, a
//! cap on what may be withdrawn per UTC day, and a whitelist of destinations.
//!
//! The three gates are evaluated in that order and all must pass. Nothing
//! here changes a position: an approval carries the policy state that the
//! position is to take once the withdrawal is applied.

use vstd::prelude::*;
use crate::error::SentinelError;
use crate::pubkey::Pubkey;
use crate::state::{UserPosition, MAX_WHITELIST, SECONDS_PER_DAY};

verus! {

/// The policy state of a position after an approved withdrawal.
#[derive(Clone, Copy, Debug, PartialEq, Eq)]
pub struct PolicyState {
    /// When the approved withdrawal takes place.
    pub last_withdraw_ts: i64,
    /// The day bucket that `daily_withdrawn` counts for.
    pub last_withdraw_day: i64,
    /// What has been withdrawn in that day bucket, the approved amount
    /// included where a cap is in force.
    pub daily_withdrawn: u64,
}

/// The day bucket of a timestamp: the number of whole UTC days since the
/// epoch, rounded down.
pub open spec fn day_bucket(now: int) -> int {
    now / (SECONDS_PER_DAY as int)
}

/// Whether the cooldown gate lets a withdrawal at `now` pass, and if not,
/// why. It is open while the cooldown is disabled or nothing has been
/// withdrawn yet.
pub open spec fn cooldown_outcome(last_withdraw_ts: i64, cooldown_seconds: i64, now: i64) -> Result<
    (),
    SentinelError,
> {
    if cooldown_seconds > 0 && last_withdraw_ts > 0 {
        if last_withdraw_ts + cooldown_seconds > i64::MAX {
            Err(SentinelError::MathOverflow)
        } else if now < last_withdraw_ts + cooldown_seconds {
            Err(SentinelError::CooldownActive)
        } else {
            Ok(())
        }
    } else {
        Ok(())
    }
}

/// The day bucket that a position counts for once it is looked at at `now`:
/// the current one if the stored one is older.
pub open spec fn rolled_day(last_withdraw_day: i64, now: i64) -> i64 {
    if last_withdraw_day < day_bucket(now as int) {
        day_bucket(now as int) as i64
    } else {
        last_withdraw_day
    }
}

/// What a position has withdrawn in the day bucket `rolled_day`: nothing if
/// the stored bucket is older than the current one.
pub open spec fn rolled_withdrawn(last_withdraw_day: i64, daily_withdrawn: u64, now: i64) -> u64 {
    if last_withdraw_day < day_bucket(now as int) {
        0
    } else {
        daily_withdrawn
    }
}

/// Whether the daily cap lets `amount` pass on top of `counted`, and what
/// the counter is afterwards. Without a cap the counter is left alone.
pub open spec fn daily_cap_outcome(counted: u64, daily_withdraw_cap: u64, amount: u64) -> Result<
    u64,
    SentinelError,
> {
    if daily_withdraw_cap > 0 {
        if counted + amount > u64::MAX {
            Err(SentinelError::MathOverflow)
        } else if counted + amount > daily_withdraw_cap {
            Err(SentinelError::DailyCapExceeded)
        } else {
            Ok((counted + amount) as u64)
        }
    } else {
        Ok(counted)
    }
}

/// Whether the whitelist of `position` lets a withdrawal go to `recipient`:
/// an empty whitelist restricts nothing, and the owner is always allowed.
pub open spec fn whitelist_allows(position: UserPosition, recipient: Pubkey) -> bool {
    position.whitelist_count == 0 || recipient == position.owner
        || position.destinations().contains(recipient)
}

/// The outcome of the whole policy for a withdrawal of `amount` to
/// `recipient` at `now`: the first gate that refuses, in the order
/// cooldown, daily cap, whitelist, or the policy state to take.
pub open spec fn policy_outcome(
    position: UserPosition,
    cooldown_seconds: i64,
    daily_withdraw_cap: u64,
    now: i64,
    amount: u64,
    recipient: Pubkey,
) -> Result<PolicyState, SentinelError> {
    let counted = rolled_withdrawn(position.last_withdraw_day, position.daily_withdrawn, now);
    match cooldown_outcome(position.last_withdraw_ts, cooldown_seconds, now) {
        Err(e) => Err(e),
        Ok(_) => match daily_cap_outcome(counted, daily_withdraw_cap, amount) {
            Err(e) => Err(e),
            Ok(daily_withdrawn) => if whitelist_allows(position, recipient) {
                Ok(
                    PolicyState {
                        last_withdraw_ts: now,
                        last_withdraw_day: rolled_day(position.last_withdraw_day, now),
                        daily_withdrawn,
                    },
                )
            } else {
                Err(SentinelError::DestinationNotWhitelisted)
            },
        },
    }
}

/// Computes the day bucket of `now`.
pub fn day_bucket_of(now: i64) -> (day: i64)
    ensures
        day == day_bucket(now as int),
{
    if now >= 0 {
        now / SECONDS_PER_DAY
    } else {
        let before: i64 = -1 - now;
        -1 - before / SECONDS_PER_DAY
    }
}

/// The cooldown gate.
pub fn check_cooldown(last_withdraw_ts: i64, cooldown_seconds: i64, now: i64) -> (r: Result<
    (),
    SentinelError,
>)
    ensures
        r == cooldown_outcome(last_withdraw_ts, cooldown_seconds, now),
{
    if cooldown_seconds > 0 && last_withdraw_ts > 0 {
        match last_withdraw_ts.checked_add(cooldown_seconds) {
            None => Err(SentinelError::MathOverflow),
            Some(earliest_allowed) => if now >= earliest_allowed {
                Ok(())
            } else {
                Err(SentinelError::CooldownActive)
            },
        }
    } else {
        Ok(())
    }
}

/// Brings the daily counter of a position up to `now`: a counter of an
/// older day bucket starts again at nothing. Returns the day bucket and
/// what has been withdrawn in it.
pub fn roll_daily_counter(last_withdraw_day: i64, daily_withdrawn: u64, now: i64) -> (r: (
    i64,
    u64,
))
    ensures
        r.0 == rolled_day(last_withdraw_day, now),
        r.1 == rolled_withdrawn(last_withdraw_day, daily_withdrawn, now),
{
    let current_day: i64 = day_bucket_of(now);
    if last_withdraw_day < current_day {
        (current_day, 0)
    } else {
        (last_withdraw_day, daily_withdrawn)
    }
}

/// The daily cap gate. Returns the counter with `amount` added where a cap
/// is in force.
pub fn check_daily_cap(counted: u64, daily_withdraw_cap: u64, amount: u64) -> (r: Result<
    u64,
    SentinelError,
>)
    ensures
        r == daily_cap_outcome(counted, daily_withdraw_cap, amount),
{
    if daily_withdraw_cap > 0 {
        match counted.checked_add(amount) {
            None => Err(SentinelError::MathOverflow),
            Some(new_daily_total) => if new_daily_total <= daily_withdraw_cap {
                Ok(new_daily_total)
            } else {
                Err(SentinelError::DailyCapExceeded)
            },
        }
    } else {
        Ok(counted)
    }
}

/// The whitelist gate.
pub fn check_whitelist(position: &UserPosition, recipient: Pubkey) -> (r: Result<
    (),
    SentinelError,
>)
    requires
        position.wf(),
    ensures
        r == if whitelist_allows(*position, recipient) {
            Ok::<(), SentinelError>(())
        } else {
            Err::<(), SentinelError>(SentinelError::DestinationNotWhitelisted)
        },
{
    if position.whitelist_count == 0 || recipient == position.owner {
        return Ok(());
    }
    let count: usize = position.whitelist_count as usize;
    let mut i: usize = 0;
    while i < count
        invariant
            i <= count,
            count == position.whitelist_count,
            count <= MAX_WHITELIST,
            forall|j: int| 0 <= j < i ==> position.whitelist[j] != recipient,
        decreases count - i,
    {
        if position.whitelist[i] == recipient {
            assert(position.destinations()[i as int] == recipient);
            return Ok(());
        }
        i += 1;
    }
    Err(SentinelError::DestinationNotWhitelisted)
}

/// Evaluates the whole policy for a withdrawal of `amount` to `recipient`
/// at `now`, under the given cooldown and daily cap.
pub fn evaluate_withdrawal(
    position: &UserPosition,
    cooldown_seconds: i64,
    daily_withdraw_cap: u64,
    now: i64,
    amount: u64,
    recipient: Pubkey,
) -> (r: Result<PolicyState, SentinelError>)
    requires
        position.wf(),
    ensures
        r == policy_outcome(
            *position,
            cooldown_seconds,
            daily_withdraw_cap,
            now,
            amount,
            recipient,
        ),
{
    match check_cooldown(position.last_withdraw_ts, cooldown_seconds, now) {
        Err(e) => {
            return Err(e);
        },
        Ok(_) => {},
    }
    let (day, counted) = roll_daily_counter(
        position.last_withdraw_day,
        position.daily_withdrawn,
        now,
    );
    let daily_withdrawn: u64 = match check_daily_cap(counted, daily_withdraw_cap, amount) {
        Err(e) => {
            return Err(e);
        },
        Ok(total) => total,
    };
    match check_whitelist(position, recipient) {
        Err(e) => {
            return Err(e);
        },
        Ok(_) => {},
    }
    Ok(PolicyState { last_withdraw_ts: now, last_withdraw_day: day, daily_withdrawn })
}

/// The gates do not depend on each other: a withdrawal is approved exactly
/// when each gate, taken alone, lets it pass.
pub proof fn lemma_policy_is_conjunction_of_gates(
    position: UserPosition,
    cooldown_seconds: i64,
    daily_withdraw_cap: u64,
    now: i64,
    amount: u64,
    recipient: Pubkey,
)
    ensures
        policy_outcome(position, cooldown_seconds, daily_withdraw_cap, now, amount, recipient)
            is Ok <==> {
            &&& cooldown_outcome(position.last_withdraw_ts, cooldown_seconds, now) is Ok
            &&& daily_cap_outcome(
                rolled_withdrawn(position.last_withdraw_day, position.daily_withdrawn, now),
                daily_withdraw_cap,
                amount,
            ) is Ok
            &&& whitelist_allows(position, recipient)
        },
{
}

/// With the cooldown disabled, the daily cap and the whitelist are enforced
/// as before: the outcome is that of those two gates alone.
pub proof fn lemma_cooldown_disabled(
    position: UserPosition,
    daily_withdraw_cap: u64,
    now: i64,
    amount: u64,
    recipient: Pubkey,
)
    ensures
        cooldown_outcome(position.last_withdraw_ts, 0, now) is Ok,
        policy_outcome(position, 0, daily_withdraw_cap, now, amount, recipient) == match daily_cap_outcome(
            rolled_withdrawn(position.last_withdraw_day, position.daily_withdrawn, now),
            daily_withdraw_cap,
            amount,
        ) {
            Err(e) => Err::<PolicyState, SentinelError>(e),
            Ok(daily_withdrawn) => if whitelist_allows(position, recipient) {
                Ok::<PolicyState, SentinelError>(
                    PolicyState {
                        last_withdraw_ts: now,
                        last_withdraw_day: rolled_day(position.last_withdraw_day, now),
                        daily_withdrawn,
                    },
                )
            } else {
                Err::<PolicyState, SentinelError>(SentinelError::DestinationNotWhitelisted)
            },
        },
{
}

/// With the daily cap disabled, the cooldown and the whitelist are enforced
/// as before, and a counter of an older day still starts again at nothing.
pub proof fn lemma_daily_cap_disabled(
    position: UserPosition,
    cooldown_seconds: i64,
    now: i64,
    amount: u64,
    recipient: Pubkey,
)
    ensures
        policy_outcome(position, cooldown_seconds, 0, now, amount, recipient) == match cooldown_outcome(
            position.last_withdraw_ts,
            cooldown_seconds,
            now,
        ) {
            Err(e) => Err::<PolicyState, SentinelError>(e),
            Ok(_) => if whitelist_allows(position, recipient) {
                Ok::<PolicyState, SentinelError>(
                    PolicyState {
                        last_withdraw_ts: now,
                        last_withdraw_day: rolled_day(position.last_withdraw_day, now),
                        daily_withdrawn: rolled_withdrawn(
                            position.last_withdraw_day,
                            position.daily_withdrawn,
                            now,
                        ),
                    },
                )
            } else {
                Err::<PolicyState, SentinelError>(SentinelError::DestinationNotWhitelisted)
            },
        },
{
}

/// With an empty whitelist, or for a withdrawal to the owner, the cooldown
/// and the daily cap are enforced as before.
pub proof fn lemma_whitelist_disabled(
    position: UserPosition,
    cooldown_seconds: i64,
    daily_withdraw_cap: u64,
    now: i64,
    amount: u64,
    recipient: Pubkey,
)
    requires
        position.whitelist_count == 0 || recipient == position.owner,
    ensures
        policy_outcome(position, cooldown_seconds, daily_withdraw_cap, now, amount, recipient)
            == match cooldown_outcome(position.last_withdraw_ts, cooldown_seconds, now) {
            Err(e) => Err::<PolicyState, SentinelError>(e),
            Ok(_) => match daily_cap_outcome(
                rolled_withdrawn(position.last_withdraw_day, position.daily_withdrawn, now),
                daily_withdraw_cap,
                amount,
            ) {
                Err(e) => Err::<PolicyState, SentinelError>(e),
                Ok(daily_withdrawn) => Ok::<PolicyState, SentinelError>(
                    PolicyState {
                        last_withdraw_ts: now,
                        last_withdraw_day: rolled_day(position.last_withdraw_day, now),
                        daily_withdrawn,
                    },
                ),
            },
        },
{
}

/// The daily counter starts again exactly at a day boundary: one second
/// before the boundary a withdrawal still counts for the day that ends, at
/// the boundary it counts for a new day that nothing has been withdrawn in.
pub proof fn lemma_daily_counter_resets_at_day_boundary(
    boundary: i64,
    daily_withdrawn: u64,
)
    requires
        boundary as int % (SECONDS_PER_DAY as int) == 0,
        boundary > i64::MIN,
    ensures
        day_bucket(boundary - 1) == day_bucket(boundary as int) - 1,
        rolled_day(day_bucket(boundary - 1) as i64, (boundary - 1) as i64) == day_bucket(
            boundary - 1,
        ),
        rolled_withdrawn(day_bucket(boundary - 1) as i64, daily_withdrawn, (boundary - 1) as i64)
            == daily_withdrawn,
        rolled_day(day_bucket(boundary - 1) as i64, boundary) == day_bucket(boundary as int),
        rolled_withdrawn(day_bucket(boundary - 1) as i64, daily_withdrawn, boundary) == 0,
{
}

} // verus!
