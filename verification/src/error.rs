use vstd::prelude::*;

verus! {

/// Why an operation was rejected. Every failure leaves all records unchanged.
#[derive(Clone, Copy, PartialEq, Eq, Structural, Debug)]
pub enum TokenLockError {
    /// `set_lock_duration` was given a zero duration.
    InvalidDuration,
    /// `lock_tokens` was given a zero amount.
    InvalidAmount,
    /// `unlock_tokens` found the vault dormant.
    NoLockedTokens,
    /// `unlock_tokens` was called before the lock window elapsed.
    LockPeriodNotOver,
    /// Accumulating a deposit would exceed the 64-bit range.
    Overflow,
    /// The caller is not the recorded administrator.
    Unauthorized,
    /// `initialize` was called when the admin settings already exist.
    AlreadyInitialized,
    /// `add_supported_token` was given a mint that is already registered.
    AssetAlreadyRegistered,
}

} // verus!
