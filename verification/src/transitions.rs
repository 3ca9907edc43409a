use vstd::prelude::*;

use crate::account_id::unset_id;
use crate::constants::EARLY_WITHDRAWAL_PENALTY;
use crate::constants::MAX_LOCK_DURATION;
use crate::constants::MIN_LOCK_DURATION;
use crate::errors::TokenLockerError;
use crate::state::LockInfoV;
use crate::state::UserInfoV;

verus! {

/// The inputs of one deposit/extend attempt, as the model sees them.
#[verifier::ext_equal]
pub ghost struct DepositArgs {
    pub caller: Seq<u8>,
    pub token_mint: Seq<u8>,
    pub amount: u64,
    pub lock_duration: i64,
    pub is_early_withdrawal_enabled: bool,
    pub now: i64,
    pub lock_bump: u8,
    pub user_bump: u8,
}

/// Whether a lock record has ever been written: a record whose owner is the
/// all-zero identity is unprovisioned, and the next deposit initializes it.
pub open spec fn is_fresh(lock: LockInfoV) -> bool {
    lock.owner == unset_id()
}

/// The error a deposit/extend attempt fails with, or `None` when it succeeds.
/// Checks run in this order: amount, duration bounds, ownership, then the two
/// checked additions (escrowed balance and lifetime volume).
pub open spec fn deposit_error(lock: LockInfoV, user: UserInfoV, a: DepositArgs) -> Option<
    TokenLockerError,
> {
    if a.amount == 0 {
        Some(TokenLockerError::InvalidAmount)
    } else if a.lock_duration < MIN_LOCK_DURATION {
        Some(TokenLockerError::LockDurationTooShort)
    } else if a.lock_duration > MAX_LOCK_DURATION {
        Some(TokenLockerError::LockDurationTooLong)
    } else if !is_fresh(lock) && lock.owner != a.caller {
        Some(TokenLockerError::UnauthorizedAccess)
    } else if lock.amount + a.amount > u64::MAX {
        Some(TokenLockerError::InvalidAmount)
    } else if user.total_locked_amount + a.amount > u64::MAX {
        Some(TokenLockerError::InvalidAmount)
    } else {
        None
    }
}

/// The lock record after a successful deposit/extend: the balance grows by the
/// deposited amount and the maturity window restarts at `now`, for the entire
/// accumulated balance. Identity, policy and salt are written only when the
/// record is fresh, and never change afterwards.
pub open spec fn lock_after_deposit(lock: LockInfoV, a: DepositArgs) -> LockInfoV {
    LockInfoV {
        owner: if is_fresh(lock) {
            a.caller
        } else {
            lock.owner
        },
        token_mint: if is_fresh(lock) {
            a.token_mint
        } else {
            lock.token_mint
        },
        amount: (lock.amount + a.amount) as u64,
        lock_start_time: a.now,
        lock_end_time: (a.now + a.lock_duration) as i64,
        is_early_withdrawal_enabled: if is_fresh(lock) {
            a.is_early_withdrawal_enabled
        } else {
            lock.is_early_withdrawal_enabled
        },
        bump: if is_fresh(lock) {
            a.lock_bump
        } else {
            lock.bump
        },
    }
}

/// The stats record after a successful deposit/extend: both lifetime counters
/// grow, the activity timestamp moves to `now`.
pub open spec fn user_after_deposit(user: UserInfoV, a: DepositArgs) -> UserInfoV {
    UserInfoV {
        owner: a.caller,
        total_locks: (user.total_locks + 1) as u64,
        total_locked_amount: (user.total_locked_amount + a.amount) as u64,
        last_lock_time: a.now,
        bump: a.user_bump,
    }
}

/// The error a mature withdrawal fails with, or `None` when it succeeds.
/// Ownership is checked first, then maturity, then whether anything is left.
pub open spec fn mature_withdraw_error(lock: LockInfoV, caller: Seq<u8>, now: i64) -> Option<
    TokenLockerError,
> {
    if lock.owner != caller {
        Some(TokenLockerError::UnauthorizedAccess)
    } else if now < lock.lock_end_time {
        Some(TokenLockerError::LockNotExpired)
    } else if lock.amount == 0 {
        Some(TokenLockerError::AlreadyWithdrawn)
    } else {
        None
    }
}

/// The error an early withdrawal fails with, or `None` when it succeeds.
/// A disabled early-withdrawal policy is an authorization failure; maturity is
/// never consulted.
pub open spec fn early_withdraw_error(lock: LockInfoV, caller: Seq<u8>) -> Option<
    TokenLockerError,
> {
    if lock.owner != caller {
        Some(TokenLockerError::UnauthorizedAccess)
    } else if !lock.is_early_withdrawal_enabled {
        Some(TokenLockerError::UnauthorizedAccess)
    } else if lock.amount == 0 {
        Some(TokenLockerError::AlreadyWithdrawn)
    } else {
        None
    }
}

/// The lock record after a successful withdrawal of either kind: the balance
/// is zeroed and every other field keeps its value, so the record can be
/// refilled by a later deposit.
pub open spec fn closed(lock: LockInfoV) -> LockInfoV {
    LockInfoV { amount: 0, ..lock }
}

/// The penalty an early withdrawal burns: the fixed percentage of the balance,
/// rounded down.
pub open spec fn early_penalty(amount: u64) -> int {
    amount * EARLY_WITHDRAWAL_PENALTY / 100
}

/// The lock record after a sequence of deposit/extend attempts, each paired
/// with whether it succeeded; a failed attempt leaves the record as it was.
pub open spec fn lock_after_deposit_attempts(
    lock: LockInfoV,
    steps: Seq<(DepositArgs, bool)>,
) -> LockInfoV
    decreases steps.len(),
{
    if steps.len() == 0 {
        lock
    } else {
        let next = if steps[0].1 {
            lock_after_deposit(lock, steps[0].0)
        } else {
            lock
        };
        lock_after_deposit_attempts(next, steps.drop_first())
    }
}

/// Once a record is initialized, no number of further deposit/extend attempts,
/// successful or not, can change its owner, its token mint, its
/// early-withdrawal policy, or its custody bump seed.
pub proof fn lemma_deposits_preserve_identity_and_policy(
    lock: LockInfoV,
    steps: Seq<(DepositArgs, bool)>,
)
    requires
        lock.owner != unset_id(),
    ensures
        lock_after_deposit_attempts(lock, steps).owner == lock.owner,
        lock_after_deposit_attempts(lock, steps).token_mint == lock.token_mint,
        lock_after_deposit_attempts(lock, steps).is_early_withdrawal_enabled
            == lock.is_early_withdrawal_enabled,
        lock_after_deposit_attempts(lock, steps).bump == lock.bump,
    decreases steps.len(),
{
    if steps.len() > 0 {
        let next = if steps[0].1 {
            lock_after_deposit(lock, steps[0].0)
        } else {
            lock
        };
        lemma_deposits_preserve_identity_and_policy(next, steps.drop_first());
    }
}

/// The early-withdrawal policy observed after any number of deposit/extend
/// attempts equals the value fixed by the first successful deposit on the
/// fresh record.
pub proof fn lemma_policy_fixed_at_first_deposit(
    lock: LockInfoV,
    first: DepositArgs,
    steps: Seq<(DepositArgs, bool)>,
)
    requires
        is_fresh(lock),
        first.caller != unset_id(),
    ensures
        lock_after_deposit_attempts(lock_after_deposit(lock, first), steps)
            .is_early_withdrawal_enabled == first.is_early_withdrawal_enabled,
{
    lemma_deposits_preserve_identity_and_policy(lock_after_deposit(lock, first), steps);
}

/// A position can be closed only once: after a successful withdrawal of either
/// kind, repeating that withdrawal fails with `AlreadyWithdrawn`, whatever
/// later time it is attempted at.
pub proof fn lemma_withdrawal_closes_once(lock: LockInfoV, caller: Seq<u8>, now: i64, later: i64)
    requires
        now <= later,
    ensures
        mature_withdraw_error(lock, caller, now) is None ==> mature_withdraw_error(
            closed(lock),
            caller,
            later,
        ) == Some(TokenLockerError::AlreadyWithdrawn),
        early_withdraw_error(lock, caller) is None ==> early_withdraw_error(closed(lock), caller)
            == Some(TokenLockerError::AlreadyWithdrawn),
{
}

/// Only the record's owner can withdraw: any other identity fails with
/// `UnauthorizedAccess`, by either kind of withdrawal.
pub proof fn lemma_withdrawal_requires_owner(lock: LockInfoV, caller: Seq<u8>, now: i64)
    requires
        caller != lock.owner,
    ensures
        mature_withdraw_error(lock, caller, now) == Some(TokenLockerError::UnauthorizedAccess),
        early_withdraw_error(lock, caller) == Some(TokenLockerError::UnauthorizedAccess),
{
}

} // verus!
