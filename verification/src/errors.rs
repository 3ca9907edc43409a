use vstd::prelude::*;

verus! {

/// The failure modes a lock-lifecycle transition can surface to its caller.
#[derive(Clone, Copy, Debug, PartialEq, Eq, Structural)]
pub enum TokenLockerError {
    /// Lock duration is below the minimum lock period.
    LockDurationTooShort,
    /// Lock duration exceeds the maximum allowed period.
    LockDurationTooLong,
    /// Token amount is zero, or balance arithmetic would overflow.
    InvalidAmount,
    /// Tokens are still locked.
    TokensStillLocked,
    /// The lock period has not expired yet.
    LockNotExpired,
    /// Only the token owner can perform this action.
    UnauthorizedAccess,
    /// Invalid token account.
    InvalidTokenAccount,
    /// The position was already withdrawn and holds no tokens.
    AlreadyWithdrawn,
}

} // verus!
