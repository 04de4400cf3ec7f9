use crate::keys::Pubkey;
use vstd::prelude::*;

verus! {

/// The lock duration, in seconds, that `initialize` records: one day.
pub const DEFAULT_LOCK_DURATION: u64 = 86400;

/// The singleton administration record: who the administrator is and the
/// default lock duration applied to future locks. `bump` is the verification
/// value the host's deterministic derivation produced for this record.
#[derive(Clone, Copy, PartialEq, Eq, Structural, Debug)]
pub struct AdminSettings {
    pub admin: Pubkey,
    pub default_lock_duration: u64,
    pub bump: u8,
}

/// One entry of the append-only allow-list of token mints eligible for
/// locking.
#[derive(Clone, Copy, PartialEq, Eq, Structural, Debug)]
pub struct SupportedToken {
    pub mint: Pubkey,
    pub bump: u8,
}

/// The vault record for one (owner, mint) pair: the locked amount and its
/// lock window, plus the custody account that holds the funds. A vault is
/// never deleted; `lock_amount == 0` marks it dormant and reusable.
#[derive(Clone, Copy, PartialEq, Eq, Structural, Debug)]
pub struct UserLock {
    pub user: Pubkey,
    pub mint: Pubkey,
    pub lock_start_time: u64,
    pub lock_end_time: u64,
    pub lock_amount: u64,
    pub bump: u8,
    pub lock_token_account: Pubkey,
}

impl UserLock {
    /// A vault is active while it holds funds.
    pub open spec fn is_active(self) -> bool {
        self.lock_amount > 0
    }

    /// An active vault's window never ends before it starts. A dormant
    /// vault's window fields carry no meaning (unlock zeroes `lock_end_time`
    /// but leaves `lock_start_time` as it was).
    pub open spec fn wf(self) -> bool {
        self.is_active() ==> self.lock_end_time >= self.lock_start_time
    }
}

/// The one ledger transfer an operation asks the host to perform atomically
/// with the record changes: move `amount` tokens of the vault's mint from
/// `from`'s account to `to`'s account.
#[derive(Clone, Copy, PartialEq, Eq, Structural, Debug)]
pub struct TokenTransfer {
    pub from: Pubkey,
    pub to: Pubkey,
    pub amount: u64,
}

} // verus!
