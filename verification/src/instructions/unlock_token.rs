use vstd::prelude::*;

use crate::account_id::AccountId;
use crate::errors::TokenLockerError;
use crate::state::LockInfo;
use crate::transitions::closed;
use crate::transitions::mature_withdraw_error;

verus! {

/// Mature withdraw: after the maturity window has elapsed, closes the position
/// and reports the full escrowed amount, which the custody authority owes back
/// to the owner. Fails without mutating anything when the caller is not the
/// owner, the lock has not expired, or the position was already withdrawn.
pub fn handler(lock_info: &mut LockInfo, caller: &AccountId, now: i64) -> (result: Result<
    u64,
    TokenLockerError,
>)
    requires
        old(lock_info)@.wf(),
    ensures
        match result {
            Ok(withdrawn) => {
                &&& mature_withdraw_error(old(lock_info)@, caller@, now) is None
                &&& withdrawn == old(lock_info)@.amount
                &&& withdrawn > 0
                &&& final(lock_info)@ == closed(old(lock_info)@)
            },
            Err(e) => {
                &&& mature_withdraw_error(old(lock_info)@, caller@, now) == Some(e)
                &&& *final(lock_info) == *old(lock_info)
            },
        },
        final(lock_info)@.wf(),
{
    if !lock_info.owner.eq_id(caller) {
        return Err(TokenLockerError::UnauthorizedAccess);
    }
    if now < lock_info.lock_end_time {
        return Err(TokenLockerError::LockNotExpired);
    }
    if lock_info.amount == 0 {
        return Err(TokenLockerError::AlreadyWithdrawn);
    }
    let withdrawn: u64 = lock_info.amount;
    lock_info.amount = 0;
    Ok(withdrawn)
}

} // verus!
