use vstd::prelude::*;

use crate::account_id::unset_id;
use crate::account_id::AccountId;
use crate::constants::MAX_LOCK_DURATION;
use crate::constants::MIN_LOCK_DURATION;
use crate::errors::TokenLockerError;
use crate::state::LockInfo;
use crate::state::UserInfo;
use crate::transitions::deposit_error;
use crate::transitions::lock_after_deposit;
use crate::transitions::user_after_deposit;
use crate::transitions::DepositArgs;

verus! {

/// Deposit/extend: validates the amount, the duration bounds and the caller's
/// ownership, then grows the escrowed balance and restarts the maturity window
/// at `now` for the entire accumulated balance, and updates the owner's
/// lifetime counters. On the first deposit for the pair it fixes the owner,
/// the token mint, the early-withdrawal policy and the custody bump seed; on
/// every later deposit those fields are immutable and the policy argument is
/// ignored. Fails without mutating anything; on success the caller still owes
/// the deposited amount to the escrow holding.
pub fn handler(
    lock_info: &mut LockInfo,
    user_info: &mut UserInfo,
    caller: &AccountId,
    token_mint: &AccountId,
    amount: u64,
    lock_duration: i64,
    is_early_withdrawal_enabled: bool,
    now: i64,
    lock_bump: u8,
    user_bump: u8,
) -> (result: Result<(), TokenLockerError>)
    requires
        // the all-zero identity marks an unprovisioned record and cannot sign
        caller@ != unset_id(),
        old(lock_info)@.wf(),
        0 <= now,
        now + MAX_LOCK_DURATION <= i64::MAX,
        old(user_info).total_locks < u64::MAX,
    ensures
        ({
            let a = (DepositArgs {
                caller: caller@,
                token_mint: token_mint@,
                amount: amount,
                lock_duration: lock_duration,
                is_early_withdrawal_enabled: is_early_withdrawal_enabled,
                now: now,
                lock_bump: lock_bump,
                user_bump: user_bump,
            });
            match result {
                Ok(()) => {
                    &&& deposit_error(old(lock_info)@, old(user_info)@, a) is None
                    &&& final(lock_info)@ == lock_after_deposit(old(lock_info)@, a)
                    &&& final(user_info)@ == user_after_deposit(old(user_info)@, a)
                },
                Err(e) => {
                    &&& deposit_error(old(lock_info)@, old(user_info)@, a) == Some(e)
                    &&& *final(lock_info) == *old(lock_info)
                    &&& *final(user_info) == *old(user_info)
                },
            }
        }),
        result is Ok ==> {
            &&& final(lock_info)@.amount == old(lock_info)@.amount + amount
            &&& final(lock_info)@.lock_start_time == now
            &&& final(lock_info)@.lock_end_time == now + lock_duration
        },
        final(lock_info)@.wf(),
{
    if amount == 0 {
        return Err(TokenLockerError::InvalidAmount);
    }
    if lock_duration < MIN_LOCK_DURATION {
        return Err(TokenLockerError::LockDurationTooShort);
    }
    if lock_duration > MAX_LOCK_DURATION {
        return Err(TokenLockerError::LockDurationTooLong);
    }
    let fresh = lock_info.owner.is_unset();
    if !fresh && !lock_info.owner.eq_id(caller) {
        return Err(TokenLockerError::UnauthorizedAccess);
    }
    let new_amount: u64 = match lock_info.amount.checked_add(amount) {
        Some(v) => v,
        None => {
            return Err(TokenLockerError::InvalidAmount);
        },
    };
    let new_total: u64 = match user_info.total_locked_amount.checked_add(amount) {
        Some(v) => v,
        None => {
            return Err(TokenLockerError::InvalidAmount);
        },
    };
    if fresh {
        lock_info.owner = *caller;
        lock_info.token_mint = *token_mint;
        lock_info.is_early_withdrawal_enabled = is_early_withdrawal_enabled;
        lock_info.bump = lock_bump;
    }
    lock_info.amount = new_amount;
    lock_info.lock_start_time = now;
    lock_info.lock_end_time = now + lock_duration;
    user_info.owner = *caller;
    user_info.total_locks = user_info.total_locks + 1;
    user_info.total_locked_amount = new_total;
    user_info.last_lock_time = now;
    user_info.bump = user_bump;
    Ok(())
}

} // verus!
