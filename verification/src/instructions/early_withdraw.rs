use vstd::prelude::*;

use crate::account_id::AccountId;
use crate::constants::EARLY_WITHDRAWAL_PENALTY;
use crate::errors::TokenLockerError;
use crate::state::LockInfo;
use crate::transitions::closed;
use crate::transitions::early_penalty;
use crate::transitions::early_withdraw_error;

verus! {

/// Early withdraw: closes the position before maturity, permitted only when
/// the record's early-withdrawal policy was enabled at first deposit. Reports
/// the payout owed back to the owner and the penalty owed to the burn, with
/// `payout + penalty` equal to the whole escrowed amount; the penalty is the
/// fixed percentage of the balance, rounded down. Fails without mutating
/// anything when the caller is not the owner, the policy is disabled, or the
/// position was already withdrawn.
pub fn handler(lock_info: &mut LockInfo, caller: &AccountId) -> (result: Result<
    (u64, u64),
    TokenLockerError,
>)
    requires
        old(lock_info)@.wf(),
    ensures
        match result {
            Ok(amounts) => {
                &&& early_withdraw_error(old(lock_info)@, caller@) is None
                &&& amounts.1 == early_penalty(old(lock_info)@.amount)
                &&& amounts.0 == old(lock_info)@.amount - early_penalty(old(lock_info)@.amount)
                &&& amounts.0 + amounts.1 == old(lock_info)@.amount
                &&& final(lock_info)@ == closed(old(lock_info)@)
            },
            Err(e) => {
                &&& early_withdraw_error(old(lock_info)@, caller@) == Some(e)
                &&& *final(lock_info) == *old(lock_info)
            },
        },
        final(lock_info)@.wf(),
{
    if !lock_info.owner.eq_id(caller) {
        return Err(TokenLockerError::UnauthorizedAccess);
    }
    if !lock_info.is_early_withdrawal_enabled {
        return Err(TokenLockerError::UnauthorizedAccess);
    }
    if lock_info.amount == 0 {
        return Err(TokenLockerError::AlreadyWithdrawn);
    }
    let amount: u64 = lock_info.amount;
    // The percentage is applied in the wider u128 domain, so the product
    // cannot overflow; the quotient is at most the amount itself.
    let penalty_wide: u128 = (amount as u128) * (EARLY_WITHDRAWAL_PENALTY as u128) / 100;
    proof {
        assert(amount * EARLY_WITHDRAWAL_PENALTY / 100 <= amount) by (nonlinear_arith)
            requires
                amount >= 0,
        ;
    }
    let penalty_amount: u64 = penalty_wide as u64;
    let withdraw_amount: u64 = amount - penalty_amount;
    lock_info.amount = 0;
    Ok((withdraw_amount, penalty_amount))
}

} // verus!
