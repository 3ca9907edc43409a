use vstd::prelude::*;

verus! {

/// Minimum lock duration in seconds (15 minutes).
pub const MIN_LOCK_DURATION: i64 = 900;

/// Maximum lock duration in seconds (2 years).
pub const MAX_LOCK_DURATION: i64 = 63072000;

/// Early-withdrawal penalty, as a percentage of the locked amount.
pub const EARLY_WITHDRAWAL_PENALTY: u8 = 20;

/// Seed prefix for the lock record and its custody authority:
/// the ASCII bytes of `token_locker`.
pub const LOCKER_SEED: [u8; 12] = [116, 111, 107, 101, 110, 95, 108, 111, 99, 107, 101, 114];

/// Seed prefix for the per-owner stats record: the ASCII bytes of `user_info`.
pub const USER_INFO_SEED: [u8; 9] = [117, 115, 101, 114, 95, 105, 110, 102, 111];

} // verus!
