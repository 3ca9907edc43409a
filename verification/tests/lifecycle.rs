use token_locker::account_id::AccountId;
use token_locker::constants::EARLY_WITHDRAWAL_PENALTY;
use token_locker::constants::MAX_LOCK_DURATION;
use token_locker::constants::MIN_LOCK_DURATION;
use token_locker::custody::derive_custody_authority;
use token_locker::custody::signer_seeds;
use token_locker::errors::TokenLockerError;
use token_locker::instructions::early_withdraw;
use token_locker::instructions::lock_token;
use token_locker::instructions::unlock_token;
use token_locker::state::LockInfo;
use token_locker::state::UserInfo;

fn uid(fill: u8) -> AccountId {
    AccountId::new([fill; 32])
}

fn unique_id() -> AccountId {
    AccountId::new(anchor_lang::prelude::Pubkey::new_unique().to_bytes())
}

fn fresh_lock() -> LockInfo {
    LockInfo {
        owner: uid(0),
        token_mint: uid(0),
        amount: 0,
        lock_start_time: 0,
        lock_end_time: 0,
        is_early_withdrawal_enabled: false,
        bump: 0,
    }
}

fn fresh_user() -> UserInfo {
    UserInfo { owner: uid(0), total_locks: 0, total_locked_amount: 0, last_lock_time: 0, bump: 0 }
}

fn deposit(
    lock: &mut LockInfo,
    user: &mut UserInfo,
    caller: &AccountId,
    mint: &AccountId,
    amount: u64,
    duration: i64,
    early_allowed: bool,
    now: i64,
) -> Result<(), TokenLockerError> {
    lock_token::handler(lock, user, caller, mint, amount, duration, early_allowed, now, 254, 253)
}

#[test]
fn test_lock_token() {
    let program_id = unique_id();
    let owner = unique_id();
    let token_mint = unique_id();

    let amount = 1000;
    let lock_duration = 900; // 15 minutes

    let _lock_info_pda = derive_custody_authority(&owner, &token_mint, &program_id).unwrap();

    assert!(lock_duration >= MIN_LOCK_DURATION, "Lock duration too short");
    assert!(lock_duration <= MAX_LOCK_DURATION, "Lock duration too long");

    let mut lock = fresh_lock();
    let mut user = fresh_user();
    assert_eq!(deposit(&mut lock, &mut user, &owner, &token_mint, amount, lock_duration, false, 0), Ok(()));
    assert_eq!(lock.amount, 1000);
}

#[test]
fn test_unlock_token() {
    let program_id = unique_id();
    let owner = unique_id();
    let token_mint = unique_id();

    let lock_info_pda = derive_custody_authority(&owner, &token_mint, &program_id).unwrap();

    assert_ne!(lock_info_pda.authority.bytes, [0u8; 32], "Invalid PDA derivation");
}

#[test]
fn test_early_withdraw() {
    let amount: u64 = 1000;
    let penalty_amount = (amount as u128 * EARLY_WITHDRAWAL_PENALTY as u128 / 100) as u64;
    let withdraw_amount = amount - penalty_amount;

    assert_eq!(penalty_amount, 200, "Incorrect penalty calculation");
    assert_eq!(withdraw_amount, 800, "Incorrect withdraw amount calculation");

    let owner = uid(1);
    let mut lock = fresh_lock();
    let mut user = fresh_user();
    deposit(&mut lock, &mut user, &owner, &uid(2), amount, 900, true, 0).unwrap();
    assert_eq!(early_withdraw::handler(&mut lock, &owner), Ok((800, 200)));
    assert_eq!(lock.amount, 0);
}

#[test]
fn deposit_accumulates_and_resets_window() {
    let owner = uid(1);
    let mint = uid(2);
    let mut lock = fresh_lock();
    let mut user = fresh_user();

    deposit(&mut lock, &mut user, &owner, &mint, 500, 900, true, 1000).unwrap();
    assert_eq!(lock.amount, 500);
    assert_eq!(lock.lock_start_time, 1000);
    assert_eq!(lock.lock_end_time, 1900);

    // A later deposit grows the balance and restarts the whole window,
    // regardless of the earlier maturity.
    deposit(&mut lock, &mut user, &owner, &mint, 300, 7200, true, 1500).unwrap();
    assert_eq!(lock.amount, 800);
    assert_eq!(lock.lock_start_time, 1500);
    assert_eq!(lock.lock_end_time, 1500 + 7200);

    assert_eq!(user.total_locks, 2);
    assert_eq!(user.total_locked_amount, 800);
    assert_eq!(user.last_lock_time, 1500);
}

#[test]
fn policy_fixed_at_first_deposit() {
    let owner = uid(1);
    let mint = uid(2);
    let mut lock = fresh_lock();
    let mut user = fresh_user();

    deposit(&mut lock, &mut user, &owner, &mint, 10, 900, true, 0).unwrap();
    assert!(lock.is_early_withdrawal_enabled);

    // The flag argument of every later deposit is ignored.
    deposit(&mut lock, &mut user, &owner, &mint, 10, 900, false, 10).unwrap();
    assert!(lock.is_early_withdrawal_enabled);
    deposit(&mut lock, &mut user, &owner, &mint, 10, 900, false, 20).unwrap();
    assert!(lock.is_early_withdrawal_enabled);
}

#[test]
fn duration_boundaries() {
    let owner = uid(1);
    let mint = uid(2);

    let mut lock = fresh_lock();
    let mut user = fresh_user();
    assert_eq!(
        deposit(&mut lock, &mut user, &owner, &mint, 1000, 899, false, 0),
        Err(TokenLockerError::LockDurationTooShort)
    );
    assert_eq!(deposit(&mut lock, &mut user, &owner, &mint, 1000, 900, false, 0), Ok(()));

    let mut lock2 = fresh_lock();
    let mut user2 = fresh_user();
    assert_eq!(
        deposit(&mut lock2, &mut user2, &owner, &mint, 1000, 63072001, false, 0),
        Err(TokenLockerError::LockDurationTooLong)
    );
    assert_eq!(deposit(&mut lock2, &mut user2, &owner, &mint, 1000, 63072000, false, 0), Ok(()));
}

#[test]
fn zero_amount_rejected() {
    let owner = uid(1);
    let mut lock = fresh_lock();
    let mut user = fresh_user();
    assert_eq!(
        deposit(&mut lock, &mut user, &owner, &uid(2), 0, 900, false, 0),
        Err(TokenLockerError::InvalidAmount)
    );
    assert_eq!(lock.amount, 0);
    assert_eq!(user.total_locks, 0);
}

#[test]
fn balance_overflow_rejected() {
    let owner = uid(1);
    let mint = uid(2);
    let mut lock = fresh_lock();
    let mut user = fresh_user();
    deposit(&mut lock, &mut user, &owner, &mint, u64::MAX, 900, false, 0).unwrap();
    assert_eq!(
        deposit(&mut lock, &mut user, &owner, &mint, 1, 900, false, 10),
        Err(TokenLockerError::InvalidAmount)
    );
    assert_eq!(lock.amount, u64::MAX);
    assert_eq!(lock.lock_end_time, 900);
}

#[test]
fn maturity_boundary() {
    let owner = uid(1);
    let mut lock = fresh_lock();
    let mut user = fresh_user();
    deposit(&mut lock, &mut user, &owner, &uid(2), 500, 900, false, 1000).unwrap();

    let just_before_maturity = lock.lock_end_time - 1;
    assert_eq!(
        unlock_token::handler(&mut lock, &owner, just_before_maturity),
        Err(TokenLockerError::LockNotExpired)
    );
    assert_eq!(lock.amount, 500);
    assert_eq!(unlock_token::handler(&mut lock, &owner, 1900), Ok(500));
    assert_eq!(lock.amount, 0);
}

#[test]
fn double_mature_withdraw_fails() {
    let owner = uid(1);
    let mut lock = fresh_lock();
    let mut user = fresh_user();
    deposit(&mut lock, &mut user, &owner, &uid(2), 500, 900, false, 0).unwrap();

    assert_eq!(unlock_token::handler(&mut lock, &owner, 900), Ok(500));
    let snapshot = lock;
    assert_eq!(
        unlock_token::handler(&mut lock, &owner, 2000),
        Err(TokenLockerError::AlreadyWithdrawn)
    );
    assert_eq!(lock, snapshot);
}

#[test]
fn double_early_withdraw_fails() {
    let owner = uid(1);
    let mut lock = fresh_lock();
    let mut user = fresh_user();
    deposit(&mut lock, &mut user, &owner, &uid(2), 1000, 900, true, 0).unwrap();

    assert_eq!(early_withdraw::handler(&mut lock, &owner), Ok((800, 200)));
    let snapshot = lock;
    assert_eq!(
        early_withdraw::handler(&mut lock, &owner),
        Err(TokenLockerError::AlreadyWithdrawn)
    );
    assert_eq!(lock, snapshot);
}

#[test]
fn penalty_floor_smallest_amount() {
    let owner = uid(1);
    let mut lock = fresh_lock();
    let mut user = fresh_user();
    deposit(&mut lock, &mut user, &owner, &uid(2), 1, 900, true, 0).unwrap();
    assert_eq!(early_withdraw::handler(&mut lock, &owner), Ok((1, 0)));
}

#[test]
fn early_withdraw_needs_policy() {
    let owner = uid(1);
    let mut lock = fresh_lock();
    let mut user = fresh_user();
    deposit(&mut lock, &mut user, &owner, &uid(2), 1000, 900, false, 0).unwrap();
    assert_eq!(
        early_withdraw::handler(&mut lock, &owner),
        Err(TokenLockerError::UnauthorizedAccess)
    );
    assert_eq!(lock.amount, 1000);
}

#[test]
fn early_withdraw_ignores_maturity() {
    let owner = uid(1);
    let mut lock = fresh_lock();
    let mut user = fresh_user();
    // Two years: nowhere near mature at the time of the early withdrawal.
    deposit(&mut lock, &mut user, &owner, &uid(2), 1000, 63072000, true, 0).unwrap();
    assert_eq!(early_withdraw::handler(&mut lock, &owner), Ok((800, 200)));
}

#[test]
fn reopen_after_mature_withdraw() {
    let owner = uid(1);
    let mint = uid(2);
    let mut lock = fresh_lock();
    let mut user = fresh_user();

    deposit(&mut lock, &mut user, &owner, &mint, 500, 900, true, 1000).unwrap();
    assert_eq!(unlock_token::handler(&mut lock, &owner, 2000), Ok(500));
    assert_eq!(lock.amount, 0);

    // The closed record is reusable storage: a new deposit refills it and
    // refreshes the window, while identity and policy keep their first values.
    deposit(&mut lock, &mut user, &owner, &mint, 300, 900, false, 5000).unwrap();
    assert_eq!(lock.amount, 300);
    assert_eq!(lock.lock_start_time, 5000);
    assert_eq!(lock.lock_end_time, 5900);
    assert!(lock.is_early_withdrawal_enabled);
    assert_eq!(lock.owner, owner);
    assert_eq!(lock.token_mint, mint);
}

#[test]
fn withdrawals_need_owner() {
    let owner = uid(1);
    let stranger = uid(9);
    let mut lock = fresh_lock();
    let mut user = fresh_user();
    deposit(&mut lock, &mut user, &owner, &uid(2), 500, 900, true, 0).unwrap();
    let snapshot = lock;

    assert_eq!(
        unlock_token::handler(&mut lock, &stranger, 10_000),
        Err(TokenLockerError::UnauthorizedAccess)
    );
    assert_eq!(lock, snapshot);
    assert_eq!(
        early_withdraw::handler(&mut lock, &stranger),
        Err(TokenLockerError::UnauthorizedAccess)
    );
    assert_eq!(lock, snapshot);
}

#[test]
fn deposit_needs_owner() {
    let owner = uid(1);
    let stranger = uid(9);
    let mint = uid(2);
    let mut lock = fresh_lock();
    let mut user = fresh_user();
    deposit(&mut lock, &mut user, &owner, &mint, 500, 900, true, 0).unwrap();
    assert_eq!(
        deposit(&mut lock, &mut user, &stranger, &mint, 500, 900, true, 10),
        Err(TokenLockerError::UnauthorizedAccess)
    );
    assert_eq!(lock.amount, 500);
    assert_eq!(user.total_locks, 1);
}

#[test]
fn custody_authority_is_deterministic() {
    let program_id = unique_id();
    let owner = unique_id();
    let mint = unique_id();

    let first = derive_custody_authority(&owner, &mint, &program_id).unwrap();
    let second = derive_custody_authority(&owner, &mint, &program_id).unwrap();
    assert_eq!(first.authority, second.authority);
    assert_eq!(first.bump, second.bump);
    // The authority is a derived identity, not an echo of its inputs.
    assert_ne!(first.authority.bytes, owner.bytes);
    assert_ne!(first.authority.bytes, mint.bytes);
    assert_ne!(first.authority.bytes, [0u8; 32]);
}

#[test]
fn signer_seeds_spell_out_the_derivation() {
    let owner = unique_id();
    let mint = unique_id();
    let seeds = signer_seeds(&owner, &mint, 251);
    assert_eq!(seeds.len(), 4);
    assert_eq!(seeds[0], b"token_locker".to_vec());
    assert_eq!(seeds[1], owner.bytes.to_vec());
    assert_eq!(seeds[2], mint.bytes.to_vec());
    assert_eq!(seeds[3], vec![251u8]);
}
