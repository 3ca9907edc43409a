use vstd::prelude::*;

use crate::account_id::AccountId;

verus! {

/// Mathematical model of a lock record: identities as byte sequences, the
/// escrowed balance, and the maturity window.
#[verifier::ext_equal]
pub ghost struct LockInfoV {
    pub owner: Seq<u8>,
    pub token_mint: Seq<u8>,
    pub amount: u64,
    pub lock_start_time: i64,
    pub lock_end_time: i64,
    pub is_early_withdrawal_enabled: bool,
    pub bump: u8,
}

impl LockInfoV {
    /// A record either holds nothing or its maturity window is ordered.
    pub open spec fn wf(self) -> bool {
        self.amount == 0 || self.lock_end_time >= self.lock_start_time
    }
}

/// One lock position per (owner, token mint) pair: the escrowed balance,
/// the maturity window, the early-withdrawal policy fixed at first deposit,
/// and the derivation salt of the custody authority.
#[derive(Clone, Copy, Debug, PartialEq, Eq)]
pub struct LockInfo {
    pub owner: AccountId,
    pub token_mint: AccountId,
    pub amount: u64,
    pub lock_start_time: i64,
    pub lock_end_time: i64,
    pub is_early_withdrawal_enabled: bool,
    pub bump: u8,
}

impl View for LockInfo {
    type V = LockInfoV;

    open spec fn view(&self) -> LockInfoV {
        LockInfoV {
            owner: self.owner@,
            token_mint: self.token_mint@,
            amount: self.amount,
            lock_start_time: self.lock_start_time,
            lock_end_time: self.lock_end_time,
            is_early_withdrawal_enabled: self.is_early_withdrawal_enabled,
            bump: self.bump,
        }
    }
}

/// Mathematical model of a per-owner stats record.
#[verifier::ext_equal]
pub ghost struct UserInfoV {
    pub owner: Seq<u8>,
    pub total_locks: u64,
    pub total_locked_amount: u64,
    pub last_lock_time: i64,
    pub bump: u8,
}

/// Per-owner lifetime aggregate: how many deposits the owner ever made, the
/// cumulative volume ever locked, and the last activity timestamp. Withdrawals
/// never decrease these counters.
#[derive(Clone, Copy, Debug, PartialEq, Eq)]
pub struct UserInfo {
    pub owner: AccountId,
    pub total_locks: u64,
    pub total_locked_amount: u64,
    pub last_lock_time: i64,
    pub bump: u8,
}

impl View for UserInfo {
    type V = UserInfoV;

    open spec fn view(&self) -> UserInfoV {
        UserInfoV {
            owner: self.owner@,
            total_locks: self.total_locks,
            total_locked_amount: self.total_locked_amount,
            last_lock_time: self.last_lock_time,
            bump: self.bump,
        }
    }
}

} // verus!
