use token_lock::error::TokenLockError;
use token_lock::keys::Pubkey;
use token_lock::program::TokenLock;
use token_lock::records::TokenTransfer;

fn key(n: u64) -> Pubkey {
    Pubkey::new(n, 0, 0, 0)
}

fn setup() -> (TokenLock, Pubkey, Pubkey, Pubkey, Pubkey) {
    let mut tl = TokenLock::new();
    let admin = key(1);
    let user = key(2);
    let mint = key(3);
    let custody = key(4);
    assert_eq!(tl.initialize(admin, 255), Ok(()));
    assert_eq!(tl.add_supported_token(admin, mint, 254), Ok(()));
    (tl, admin, user, mint, custody)
}

#[test]
fn initialize_sets_admin_and_default_duration() {
    let mut tl = TokenLock::new();
    assert!(!tl.is_initialized());
    let admin = key(1);
    assert_eq!(tl.initialize(admin, 255), Ok(()));
    assert!(tl.is_initialized());
    assert_eq!(tl.get_admin(), Some(admin));
    assert_eq!(tl.get_default_lock_duration(), Some(86400));
}

#[test]
fn initialize_twice_fails() {
    let mut tl = TokenLock::new();
    assert_eq!(tl.initialize(key(1), 255), Ok(()));
    assert_eq!(tl.initialize(key(9), 254), Err(TokenLockError::AlreadyInitialized));
    assert_eq!(tl.get_admin(), Some(key(1)));
}

#[test]
fn add_supported_token_registers_mint() {
    let (tl, _, _, mint, _) = setup();
    assert!(tl.is_supported(mint));
    assert!(!tl.is_supported(key(99)));
}

#[test]
fn add_supported_token_rejects_non_admin() {
    let (mut tl, _, user, _, _) = setup();
    assert_eq!(tl.add_supported_token(user, key(9), 253), Err(TokenLockError::Unauthorized));
    assert!(!tl.is_supported(key(9)));
}

#[test]
fn add_supported_token_rejects_duplicate() {
    let (mut tl, admin, _, mint, _) = setup();
    assert_eq!(
        tl.add_supported_token(admin, mint, 253),
        Err(TokenLockError::AssetAlreadyRegistered)
    );
}

#[test]
fn admin_operations_fail_before_initialize() {
    let mut tl = TokenLock::new();
    assert_eq!(tl.set_lock_duration(key(1), 3600), Err(TokenLockError::Unauthorized));
    assert_eq!(tl.add_supported_token(key(1), key(3), 254), Err(TokenLockError::Unauthorized));
    assert!(!tl.is_supported(key(3)));
}

#[test]
fn set_lock_duration_by_admin() {
    let (mut tl, admin, _, _, _) = setup();
    assert_eq!(tl.set_lock_duration(admin, 3600), Ok(()));
    assert_eq!(tl.get_default_lock_duration(), Some(3600));
}

#[test]
fn set_lock_duration_rejects_non_admin() {
    let (mut tl, _, user, _, _) = setup();
    assert_eq!(tl.set_lock_duration(user, 3600), Err(TokenLockError::Unauthorized));
    assert_eq!(tl.get_default_lock_duration(), Some(86400));
}

#[test]
fn set_lock_duration_rejects_zero() {
    let (mut tl, admin, _, _, _) = setup();
    assert_eq!(tl.set_lock_duration(admin, 0), Err(TokenLockError::InvalidDuration));
    assert_eq!(tl.get_default_lock_duration(), Some(86400));
}

#[test]
fn first_lock_sets_amount_and_window() {
    let (mut tl, _, user, mint, custody) = setup();
    let r = tl.lock_tokens(user, mint, custody, 7, 500, 100);
    assert_eq!(r, Ok(TokenTransfer { from: user, to: custody, amount: 100 }));
    let vault = tl.get_lock(user, mint).unwrap();
    assert_eq!(vault.lock_amount, 100);
    assert_eq!(vault.lock_start_time, 500);
    assert_eq!(vault.lock_end_time, 500 + 86400);
    assert_eq!(vault.lock_end_time - vault.lock_start_time, 86400);
    assert_eq!(vault.lock_token_account, custody);
    assert_eq!(vault.user, user);
    assert_eq!(vault.mint, mint);
}

#[test]
fn lock_rejects_zero_amount() {
    let (mut tl, _, user, mint, custody) = setup();
    assert_eq!(tl.lock_tokens(user, mint, custody, 7, 0, 0), Err(TokenLockError::InvalidAmount));
    assert!(tl.get_lock(user, mint).is_none());
}

#[test]
fn sequential_locks_accumulate_and_restart_window() {
    let (mut tl, _, user, mint, custody) = setup();
    assert!(tl.lock_tokens(user, mint, custody, 7, 0, 100).is_ok());
    assert!(tl.lock_tokens(user, mint, custody, 7, 1000, 50).is_ok());
    let vault = tl.get_lock(user, mint).unwrap();
    assert_eq!(vault.lock_amount, 150);
    assert_eq!(vault.lock_start_time, 1000);
    assert_eq!(vault.lock_end_time, 1000 + 86400);
}

#[test]
fn lock_overflow_leaves_amount_unchanged() {
    let (mut tl, _, user, mint, custody) = setup();
    assert!(tl.lock_tokens(user, mint, custody, 7, 0, u64::MAX - 5).is_ok());
    assert_eq!(
        tl.lock_tokens(user, mint, custody, 7, 10, 6),
        Err(TokenLockError::Overflow)
    );
    let vault = tl.get_lock(user, mint).unwrap();
    assert_eq!(vault.lock_amount, u64::MAX - 5);
    assert_eq!(vault.lock_start_time, 0);
    // A deposit that still fits is accepted.
    assert!(tl.lock_tokens(user, mint, custody, 7, 10, 5).is_ok());
    assert_eq!(tl.get_lock(user, mint).unwrap().lock_amount, u64::MAX);
}

#[test]
fn unlock_before_window_end_fails() {
    let (mut tl, _, user, mint, custody) = setup();
    assert!(tl.lock_tokens(user, mint, custody, 7, 0, 100).is_ok());
    assert_eq!(
        tl.unlock_tokens(user, mint, 86399),
        Err(TokenLockError::LockPeriodNotOver)
    );
    assert_eq!(tl.get_lock(user, mint).unwrap().lock_amount, 100);
}

#[test]
fn unlock_at_window_end_returns_full_amount() {
    let (mut tl, _, user, mint, custody) = setup();
    assert!(tl.lock_tokens(user, mint, custody, 7, 0, 100).is_ok());
    let r = tl.unlock_tokens(user, mint, 86400);
    assert_eq!(r, Ok(TokenTransfer { from: custody, to: user, amount: 100 }));
    let vault = tl.get_lock(user, mint).unwrap();
    assert_eq!(vault.lock_amount, 0);
    assert_eq!(vault.lock_end_time, 0);
}

#[test]
fn unlock_dormant_vault_fails_regardless_of_time() {
    let (mut tl, _, user, mint, custody) = setup();
    assert!(tl.lock_tokens(user, mint, custody, 7, 0, 100).is_ok());
    assert!(tl.unlock_tokens(user, mint, 86400).is_ok());
    assert_eq!(tl.unlock_tokens(user, mint, 0), Err(TokenLockError::NoLockedTokens));
    assert_eq!(
        tl.unlock_tokens(user, mint, u64::MAX),
        Err(TokenLockError::NoLockedTokens)
    );
}

#[test]
fn vault_is_reusable_after_unlock() {
    let (mut tl, _, user, mint, custody) = setup();
    assert!(tl.lock_tokens(user, mint, custody, 7, 0, 100).is_ok());
    assert!(tl.unlock_tokens(user, mint, 86400).is_ok());
    assert!(tl.lock_tokens(user, mint, custody, 7, 90000, 25).is_ok());
    let vault = tl.get_lock(user, mint).unwrap();
    assert_eq!(vault.lock_amount, 25);
    assert_eq!(vault.lock_start_time, 90000);
    assert_eq!(vault.lock_end_time, 90000 + 86400);
}

#[test]
fn unlock_preserves_stale_start_time() {
    let (mut tl, _, user, mint, custody) = setup();
    assert!(tl.lock_tokens(user, mint, custody, 7, 1234, 100).is_ok());
    assert!(tl.unlock_tokens(user, mint, 1234 + 86400).is_ok());
    let vault = tl.get_lock(user, mint).unwrap();
    assert_eq!(vault.lock_start_time, 1234);
    assert_eq!(vault.lock_end_time, 0);
}

#[test]
fn new_duration_applies_only_to_future_locks() {
    let (mut tl, admin, user, mint, custody) = setup();
    assert!(tl.lock_tokens(user, mint, custody, 7, 0, 10).is_ok());
    assert_eq!(tl.set_lock_duration(admin, 100), Ok(()));
    // The running window is untouched.
    assert_eq!(tl.get_lock(user, mint).unwrap().lock_end_time, 86400);
    // A further deposit restarts the window with the new duration.
    assert!(tl.lock_tokens(user, mint, custody, 7, 50, 5).is_ok());
    assert_eq!(tl.get_lock(user, mint).unwrap().lock_end_time, 150);
}

#[test]
fn vaults_are_kept_per_owner_and_mint() {
    let (mut tl, admin, user, mint, custody) = setup();
    let other_user = key(8);
    let other_mint = key(9);
    assert_eq!(tl.add_supported_token(admin, other_mint, 250), Ok(()));
    assert!(tl.lock_tokens(user, mint, custody, 7, 0, 10).is_ok());
    assert!(tl.lock_tokens(other_user, mint, key(10), 6, 5, 20).is_ok());
    assert!(tl.lock_tokens(user, other_mint, key(11), 5, 9, 30).is_ok());
    assert_eq!(tl.get_lock(user, mint).unwrap().lock_amount, 10);
    assert_eq!(tl.get_lock(other_user, mint).unwrap().lock_amount, 20);
    assert_eq!(tl.get_lock(user, other_mint).unwrap().lock_amount, 30);
    assert!(tl.get_lock(other_user, other_mint).is_none());
}

#[test]
fn full_scenario_day_lock() {
    let mut tl = TokenLock::new();
    let admin = key(1);
    let user = key(2);
    let mint_x = key(3);
    let custody = key(4);
    assert_eq!(tl.initialize(admin, 255), Ok(()));
    assert_eq!(tl.get_default_lock_duration(), Some(86400));
    assert_eq!(tl.add_supported_token(admin, mint_x, 254), Ok(()));
    assert!(tl.lock_tokens(user, mint_x, custody, 7, 0, 100).is_ok());
    assert_eq!(tl.get_lock(user, mint_x).unwrap().lock_end_time, 86400);
    assert!(tl.lock_tokens(user, mint_x, custody, 7, 1000, 50).is_ok());
    let vault = tl.get_lock(user, mint_x).unwrap();
    assert_eq!(vault.lock_amount, 150);
    assert_eq!(vault.lock_end_time, 87400);
    assert_eq!(
        tl.unlock_tokens(user, mint_x, 50000),
        Err(TokenLockError::LockPeriodNotOver)
    );
    let r = tl.unlock_tokens(user, mint_x, 87400);
    assert_eq!(r, Ok(TokenTransfer { from: custody, to: user, amount: 150 }));
    assert_eq!(tl.get_lock(user, mint_x).unwrap().lock_amount, 0);
}
