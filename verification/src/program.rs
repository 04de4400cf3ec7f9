use crate::error::TokenLockError;
use crate::keys::Pubkey;
use crate::records::AdminSettings;
use crate::records::SupportedToken;
use crate::records::TokenTransfer;
use crate::records::UserLock;
use crate::records::DEFAULT_LOCK_DURATION;
use crate::vault_map::lemma_vaults_map_absent;
use crate::vault_map::lemma_vaults_map_index;
use crate::vault_map::lemma_vaults_map_push;
use crate::vault_map::lemma_vaults_map_update;
use crate::vault_map::unique_keys;
use crate::vault_map::vault_key;
use crate::vault_map::vaults_map;
use vstd::prelude::*;

verus! {

/// The abstract state of the whole system: the (possibly not yet created)
/// administration record, the allow-list in registration order, and the
/// vaults as a map keyed by (owner, mint).
pub struct TokenLockView {
    pub admin_settings: Option<AdminSettings>,
    pub supported: Seq<SupportedToken>,
    pub vaults: Map<(Pubkey, Pubkey), UserLock>,
}

impl TokenLockView {
    /// The administration record exists.
    pub open spec fn initialized(self) -> bool {
        self.admin_settings is Some
    }

    /// The recorded administrator.
    pub open spec fn admin(self) -> Pubkey
        recommends
            self.initialized(),
    {
        self.admin_settings->0.admin
    }

    /// The default lock duration current locks are measured with.
    pub open spec fn duration(self) -> u64
        recommends
            self.initialized(),
    {
        self.admin_settings->0.default_lock_duration
    }

    /// The mint is on the allow-list.
    pub open spec fn is_supported(self, mint: Pubkey) -> bool {
        exists|i: int| 0 <= i < self.supported.len() && (#[trigger] self.supported[i]).mint == mint
    }

    /// A vault record exists for this (owner, mint) pair.
    pub open spec fn has_vault(self, user: Pubkey, mint: Pubkey) -> bool {
        self.vaults.contains_key((user, mint))
    }

    /// The vault record for this (owner, mint) pair.
    pub open spec fn vault(self, user: Pubkey, mint: Pubkey) -> UserLock
        recommends
            self.has_vault(user, mint),
    {
        self.vaults[(user, mint)]
    }

    /// The amount this owner currently holds locked in this mint: zero where
    /// no vault exists or the vault is dormant.
    pub open spec fn locked_amount(self, user: Pubkey, mint: Pubkey) -> u64 {
        if self.has_vault(user, mint) {
            self.vault(user, mint).lock_amount
        } else {
            0
        }
    }

    /// State-level well-formedness: the default duration is positive once
    /// set, and every vault's window is well-formed.
    pub open spec fn wf(self) -> bool {
        &&& (self.admin_settings matches Some(a) ==> a.default_lock_duration > 0)
        &&& (forall|k: (Pubkey, Pubkey)| #[trigger]
            self.vaults.contains_key(k) ==> self.vaults[k].wf())
    }

    /// `lock_tokens(amount)` succeeds exactly on these states and inputs.
    pub open spec fn can_lock(self, user: Pubkey, mint: Pubkey, amount: u64) -> bool {
        &&& amount > 0
        &&& (self.has_vault(user, mint) && self.vault(user, mint).is_active()
            ==> self.vault(user, mint).lock_amount + amount <= u64::MAX)
    }

    /// The state after a successful `lock_tokens`: the vault for
    /// (owner, mint) accumulates the deposit if it was active, or is written
    /// afresh if it was dormant or absent; either way the window restarts at
    /// `now` and runs for the current default duration.
    pub open spec fn lock_step(
        self,
        user: Pubkey,
        mint: Pubkey,
        custody: Pubkey,
        bump: u8,
        now: u64,
        amount: u64,
    ) -> TokenLockView
        recommends
            self.initialized(),
            self.can_lock(user, mint, amount),
            now + self.duration() <= u64::MAX,
    {
        let lock_end = (now + self.duration()) as u64;
        let updated = if self.has_vault(user, mint) && self.vault(user, mint).is_active() {
            UserLock {
                lock_amount: (self.vault(user, mint).lock_amount + amount) as u64,
                lock_start_time: now,
                lock_end_time: lock_end,
                ..self.vault(user, mint)
            }
        } else {
            UserLock {
                user,
                mint,
                lock_start_time: now,
                lock_end_time: lock_end,
                lock_amount: amount,
                bump,
                lock_token_account: custody,
            }
        };
        TokenLockView { vaults: self.vaults.insert((user, mint), updated), ..self }
    }

    /// `unlock_tokens` succeeds exactly on these states and inputs.
    pub open spec fn can_unlock(self, user: Pubkey, mint: Pubkey, now: u64) -> bool {
        &&& self.has_vault(user, mint)
        &&& self.vault(user, mint).is_active()
        &&& now >= self.vault(user, mint).lock_end_time
    }

    /// The state after a successful `unlock_tokens`: the vault's amount and
    /// window end are zeroed; its start time is deliberately left as it was,
    /// since a dormant vault's window carries no meaning.
    pub open spec fn unlock_step(self, user: Pubkey, mint: Pubkey) -> TokenLockView
        recommends
            self.has_vault(user, mint),
    {
        let cleared = UserLock { lock_amount: 0, lock_end_time: 0, ..self.vault(user, mint) };
        TokenLockView { vaults: self.vaults.insert((user, mint), cleared), ..self }
    }
}

/// The system's records: the administration singleton, the allow-list and
/// the vaults. The host's account storage persists each record separately;
/// this struct is their in-memory form.
pub struct TokenLock {
    pub admin_settings: Option<AdminSettings>,
    pub supported_tokens: Vec<SupportedToken>,
    pub locks: Vec<UserLock>,
}

impl View for TokenLock {
    type V = TokenLockView;

    open spec fn view(&self) -> TokenLockView {
        TokenLockView {
            admin_settings: self.admin_settings,
            supported: self.supported_tokens@,
            vaults: vaults_map(self.locks@),
        }
    }
}

impl TokenLock {
    /// Record-level well-formedness: the view is well-formed, mints are
    /// registered at most once, and vault keys are unique, so the vault list
    /// and its map view carry the same records.
    pub open spec fn wf(self) -> bool {
        &&& self@.wf()
        &&& (forall|i: int, j: int|
            0 <= i < j < self.supported_tokens@.len()
                ==> (#[trigger] self.supported_tokens@[i]).mint != (
            #[trigger] self.supported_tokens@[j]).mint)
        &&& unique_keys(self.locks@)
    }

    /// The empty system: nothing initialized, nothing registered, no vaults.
    pub fn new() -> (r: TokenLock)
        ensures
            r.wf(),
            r@.admin_settings is None,
            r@.supported == Seq::<SupportedToken>::empty(),
            r@.vaults == Map::<(Pubkey, Pubkey), UserLock>::empty(),
    {
        TokenLock { admin_settings: None, supported_tokens: Vec::new(), locks: Vec::new() }
    }

    /// Create the administration record exactly once: the caller becomes the
    /// administrator and the default duration starts at one day. Fails with
    /// `AlreadyInitialized`, changing nothing, if the record already exists.
    pub fn initialize(&mut self, caller: Pubkey, bump: u8) -> (r: Result<(), TokenLockError>)
        requires
            old(self).wf(),
        ensures
            final(self).wf(),
            old(self)@.initialized() ==> r == Err::<(), TokenLockError>(
                TokenLockError::AlreadyInitialized,
            ) && *final(self) == *old(self),
            !old(self)@.initialized() ==> r == Ok::<(), TokenLockError>(()) && final(self)@ == (
            TokenLockView {
                admin_settings: Some(
                    AdminSettings {
                        admin: caller,
                        default_lock_duration: DEFAULT_LOCK_DURATION,
                        bump,
                    },
                ),
                ..old(self)@
            }),
    {
        if self.admin_settings.is_some() {
            return Err(TokenLockError::AlreadyInitialized);
        }
        self.admin_settings = Some(
            AdminSettings { admin: caller, default_lock_duration: DEFAULT_LOCK_DURATION, bump },
        );
        Ok(())
    }

    /// Change the default lock duration for future locks. Only the
    /// administrator may call this (`Unauthorized` otherwise, and nobody is
    /// the administrator before `initialize`), the new duration must be
    /// positive (`InvalidDuration` otherwise), and a running lock window is
    /// never changed retroactively: only the administration record moves.
    pub fn set_lock_duration(&mut self, caller: Pubkey, duration: u64) -> (r: Result<
        (),
        TokenLockError,
    >)
        requires
            old(self).wf(),
        ensures
            final(self).wf(),
            r is Err ==> *final(self) == *old(self),
            !old(self)@.initialized() || caller != old(self)@.admin() ==> r == Err::<
                (),
                TokenLockError,
            >(TokenLockError::Unauthorized),
            old(self)@.initialized() && caller == old(self)@.admin() && duration == 0 ==> r
                == Err::<(), TokenLockError>(TokenLockError::InvalidDuration),
            old(self)@.initialized() && caller == old(self)@.admin() && duration > 0 ==> r
                == Ok::<(), TokenLockError>(()) && final(self)@ == (TokenLockView {
                admin_settings: Some(
                    AdminSettings { default_lock_duration: duration, ..old(self)@.admin_settings->0 },
                ),
                ..old(self)@
            }),
    {
        let settings = if let Some(a) = &self.admin_settings {
            *a
        } else {
            return Err(TokenLockError::Unauthorized);
        };
        if caller != settings.admin {
            return Err(TokenLockError::Unauthorized);
        }
        if duration == 0 {
            return Err(TokenLockError::InvalidDuration);
        }
        self.admin_settings = Some(AdminSettings { default_lock_duration: duration, ..settings });
        Ok(())
    }

    /// Register a mint on the allow-list. Only the administrator may call
    /// this (`Unauthorized` otherwise, and nobody is the administrator before
    /// `initialize`); a mint can be registered at most once
    /// (`AssetAlreadyRegistered` otherwise); there is no removal.
    pub fn add_supported_token(&mut self, caller: Pubkey, mint: Pubkey, bump: u8) -> (r: Result<
        (),
        TokenLockError,
    >)
        requires
            old(self).wf(),
        ensures
            final(self).wf(),
            r is Err ==> *final(self) == *old(self),
            !old(self)@.initialized() || caller != old(self)@.admin() ==> r == Err::<
                (),
                TokenLockError,
            >(TokenLockError::Unauthorized),
            old(self)@.initialized() && caller == old(self)@.admin() && old(self)@.is_supported(
                mint,
            ) ==> r == Err::<(), TokenLockError>(TokenLockError::AssetAlreadyRegistered),
            old(self)@.initialized() && caller == old(self)@.admin() && !old(self)@.is_supported(
                mint,
            ) ==> r == Ok::<(), TokenLockError>(()) && final(self)@ == (TokenLockView {
                supported: old(self)@.supported.push(SupportedToken { mint, bump }),
                ..old(self)@
            }) && final(self)@.is_supported(mint),
    {
        let settings = if let Some(a) = &self.admin_settings {
            *a
        } else {
            return Err(TokenLockError::Unauthorized);
        };
        if caller != settings.admin {
            return Err(TokenLockError::Unauthorized);
        }
        let n = self.supported_tokens.len();
        let mut i: usize = 0;
        while i < n
            invariant
                i <= n,
                forall|j: int| 0 <= j < i ==> (#[trigger] self.supported_tokens@[j]).mint != mint,
            decreases n - i,
        {
            if self.supported_tokens[i].mint == mint {
                return Err(TokenLockError::AssetAlreadyRegistered);
            }
            i = i + 1;
        }
        self.supported_tokens.push(SupportedToken { mint, bump });
        proof {
            assert((#[trigger] self@.supported[old(self)@.supported.len() as int]).mint == mint);
        }
        Ok(())
    }

    /// Deposit `amount` tokens of `mint` into the caller's vault. The caller
    /// must have checked that the mint is registered and that the
    /// administration record exists; the host performs the returned transfer
    /// (owner to custody account) atomically with the record change. A
    /// dormant or absent vault is written afresh; an active vault
    /// accumulates, failing with `Overflow` if the sum would wrap. Either
    /// way the lock window restarts at `now` for the current default
    /// duration, so repeated deposits keep postponing eligibility.
    pub fn lock_tokens(
        &mut self,
        user: Pubkey,
        mint: Pubkey,
        custody: Pubkey,
        bump: u8,
        now: u64,
        amount: u64,
    ) -> (r: Result<TokenTransfer, TokenLockError>)
        requires
            old(self).wf(),
            old(self)@.initialized(),
            old(self)@.is_supported(mint),
            now + old(self)@.duration() <= u64::MAX,
        ensures
            final(self).wf(),
            final(self)@.admin_settings == old(self)@.admin_settings,
            forall|m: Pubkey| final(self)@.is_supported(m) == old(self)@.is_supported(m),
            r is Err ==> *final(self) == *old(self),
            r is Ok <==> old(self)@.can_lock(user, mint, amount),
            amount == 0 ==> r == Err::<TokenTransfer, TokenLockError>(
                TokenLockError::InvalidAmount,
            ),
            amount > 0 && !old(self)@.can_lock(user, mint, amount) ==> r == Err::<
                TokenTransfer,
                TokenLockError,
            >(TokenLockError::Overflow),
            r is Ok ==> final(self)@ == old(self)@.lock_step(user, mint, custody, bump, now, amount)
                && r->Ok_0 == (TokenTransfer { from: user, to: custody, amount }),
    {
        if amount == 0 {
            return Err(TokenLockError::InvalidAmount);
        }
        let duration = self.admin_settings.unwrap().default_lock_duration;
        let lock_end = now + duration;
        match find_lock_index(&self.locks, user, mint) {
            Some(i) => {
                let existing = self.locks[i];
                proof {
                    lemma_vaults_map_index(self.locks@, i as int);
                }
                if existing.lock_amount > 0 {
                    if amount > u64::MAX - existing.lock_amount {
                        return Err(TokenLockError::Overflow);
                    }
                    let updated = UserLock {
                        lock_amount: existing.lock_amount + amount,
                        lock_start_time: now,
                        lock_end_time: lock_end,
                        ..existing
                    };
                    self.locks[i] = updated;
                    proof {
                        lemma_vaults_map_update(old(self).locks@, i as int, updated);
                    }
                } else {
                    let updated = UserLock {
                        user,
                        mint,
                        lock_start_time: now,
                        lock_end_time: lock_end,
                        lock_amount: amount,
                        bump,
                        lock_token_account: custody,
                    };
                    self.locks[i] = updated;
                    proof {
                        lemma_vaults_map_update(old(self).locks@, i as int, updated);
                    }
                }
            },
            None => {
                let fresh = UserLock {
                    user,
                    mint,
                    lock_start_time: now,
                    lock_end_time: lock_end,
                    lock_amount: amount,
                    bump,
                    lock_token_account: custody,
                };
                proof {
                    lemma_vaults_map_absent(self.locks@, (user, mint));
                    lemma_vaults_map_push(self.locks@, fresh);
                }
                self.locks.push(fresh);
            },
        }
        proof {
            assert forall|m: Pubkey| self@.is_supported(m) == old(self)@.is_supported(m) by {
                lemma_is_supported_congruence(self@, old(self)@, m);
            }
        }
        Ok(TokenTransfer { from: user, to: custody, amount })
    }

    /// Withdraw the caller's full locked balance once the lock window has
    /// elapsed. Fails with `NoLockedTokens` on a dormant vault whatever the
    /// time, and with `LockPeriodNotOver` while `now` is before the window's
    /// end; both leave every record unchanged. On success the host performs
    /// the returned transfer (custody account back to the owner, exactly the
    /// locked amount), authorized by the custody authority it derives for
    /// this vault, and the vault goes dormant: amount and window end zeroed,
    /// start time left as it was.
    pub fn unlock_tokens(&mut self, user: Pubkey, mint: Pubkey, now: u64) -> (r: Result<
        TokenTransfer,
        TokenLockError,
    >)
        requires
            old(self).wf(),
            old(self)@.has_vault(user, mint),
        ensures
            final(self).wf(),
            final(self)@.admin_settings == old(self)@.admin_settings,
            forall|m: Pubkey| final(self)@.is_supported(m) == old(self)@.is_supported(m),
            r is Err ==> *final(self) == *old(self),
            r is Ok <==> old(self)@.can_unlock(user, mint, now),
            !old(self)@.vault(user, mint).is_active() ==> r == Err::<
                TokenTransfer,
                TokenLockError,
            >(TokenLockError::NoLockedTokens),
            old(self)@.vault(user, mint).is_active() && now < old(self)@.vault(
                user,
                mint,
            ).lock_end_time ==> r == Err::<TokenTransfer, TokenLockError>(
                TokenLockError::LockPeriodNotOver,
            ),
            r is Ok ==> final(self)@ == old(self)@.unlock_step(user, mint) && r->Ok_0 == (
            TokenTransfer {
                from: old(self)@.vault(user, mint).lock_token_account,
                to: user,
                amount: old(self)@.vault(user, mint).lock_amount,
            }),
    {
        let found = find_lock_index(&self.locks, user, mint);
        let i = if let Some(i) = found {
            i
        } else {
            proof {
                lemma_vaults_map_absent(self.locks@, (user, mint));
            }
            return Err(TokenLockError::NoLockedTokens);
        };
        proof {
            lemma_vaults_map_index(self.locks@, i as int);
        }
        let existing = self.locks[i];
        if existing.lock_amount == 0 {
            return Err(TokenLockError::NoLockedTokens);
        }
        if now < existing.lock_end_time {
            return Err(TokenLockError::LockPeriodNotOver);
        }
        let cleared = UserLock { lock_amount: 0, lock_end_time: 0, ..existing };
        self.locks[i] = cleared;
        proof {
            lemma_vaults_map_update(old(self).locks@, i as int, cleared);
        }
        proof {
            assert forall|m: Pubkey| self@.is_supported(m) == old(self)@.is_supported(m) by {
                lemma_is_supported_congruence(self@, old(self)@, m);
            }
        }
        Ok(TokenTransfer { from: existing.lock_token_account, to: user, amount: existing.lock_amount })
    }
}

impl TokenLock {
    /// Whether the administration record exists.
    pub fn is_initialized(&self) -> (b: bool)
        ensures
            b == self@.initialized(),
    {
        self.admin_settings.is_some()
    }

    /// The recorded administrator, if the administration record exists.
    pub fn get_admin(&self) -> (r: Option<Pubkey>)
        ensures
            r is Some <==> self@.initialized(),
            self@.initialized() ==> r->0 == self@.admin(),
    {
        match &self.admin_settings {
            Some(a) => Some(a.admin),
            None => None,
        }
    }

    /// The current default lock duration, if the administration record
    /// exists.
    pub fn get_default_lock_duration(&self) -> (r: Option<u64>)
        ensures
            r is Some <==> self@.initialized(),
            self@.initialized() ==> r->0 == self@.duration(),
    {
        match &self.admin_settings {
            Some(a) => Some(a.default_lock_duration),
            None => None,
        }
    }

    /// Whether the mint is on the allow-list.
    pub fn is_supported(&self, mint: Pubkey) -> (b: bool)
        ensures
            b == self@.is_supported(mint),
    {
        let n = self.supported_tokens.len();
        let mut i: usize = 0;
        while i < n
            invariant
                i <= n,
                forall|j: int| 0 <= j < i ==> (#[trigger] self.supported_tokens@[j]).mint != mint,
            decreases n - i,
        {
            if self.supported_tokens[i].mint == mint {
                assert((#[trigger] self@.supported[i as int]).mint == mint);
                return true;
            }
            i = i + 1;
        }
        false
    }

    /// The vault record for (owner, mint), if one exists.
    pub fn get_lock(&self, user: Pubkey, mint: Pubkey) -> (r: Option<UserLock>)
        requires
            self.wf(),
        ensures
            r is Some <==> self@.has_vault(user, mint),
            self@.has_vault(user, mint) ==> r->0 == self@.vault(user, mint),
    {
        match find_lock_index(&self.locks, user, mint) {
            Some(i) => {
                proof {
                    lemma_vaults_map_index(self.locks@, i as int);
                }
                Some(self.locks[i])
            },
            None => {
                proof {
                    lemma_vaults_map_absent(self.locks@, (user, mint));
                }
                None
            },
        }
    }
}

/// Two states with the same allow-list support the same mints.
proof fn lemma_is_supported_congruence(a: TokenLockView, b: TokenLockView, m: Pubkey)
    requires
        a.supported == b.supported,
    ensures
        a.is_supported(m) == b.is_supported(m),
{
    if a.is_supported(m) {
        let w = choose|i: int|
            0 <= i < a.supported.len() && (#[trigger] a.supported[i]).mint == m;
        assert((#[trigger] b.supported[w]).mint == m);
    }
    if b.is_supported(m) {
        let w = choose|i: int|
            0 <= i < b.supported.len() && (#[trigger] b.supported[i]).mint == m;
        assert((#[trigger] a.supported[w]).mint == m);
    }
}

/// Law: two sequential deposits of `a` then `b` into a vault that held no
/// funds accumulate to `a + b`, and the lock window is measured from the
/// second deposit's timestamp with the duration current at that call.
pub proof fn lemma_sequential_locks(
    v: TokenLockView,
    user: Pubkey,
    mint: Pubkey,
    custody: Pubkey,
    bump: u8,
    t1: u64,
    t2: u64,
    a: u64,
    b: u64,
)
    requires
        v.wf(),
        v.initialized(),
        v.has_vault(user, mint) ==> !v.vault(user, mint).is_active(),
        a > 0,
        b > 0,
        a + b <= u64::MAX,
        t1 + v.duration() <= u64::MAX,
        t2 + v.duration() <= u64::MAX,
    ensures
        ({
            let v1 = v.lock_step(user, mint, custody, bump, t1, a);
            let v2 = v1.lock_step(user, mint, custody, bump, t2, b);
            &&& v.can_lock(user, mint, a)
            &&& v1.can_lock(user, mint, b)
            &&& v2.vault(user, mint).lock_amount == a + b
            &&& v2.vault(user, mint).lock_start_time == t2
            &&& v2.vault(user, mint).lock_end_time == t2 + v.duration()
        }),
{
}

/// Index of the vault record for (owner, mint), if one exists.
fn find_lock_index(locks: &Vec<UserLock>, user: Pubkey, mint: Pubkey) -> (r: Option<usize>)
    ensures
        r matches Some(i) ==> i < locks@.len() && locks@[i as int].user == user
            && locks@[i as int].mint == mint,
        r is None ==> forall|j: int|
            0 <= j < locks@.len() ==> vault_key(#[trigger] locks@[j]) != (user, mint),
{
    let n = locks.len();
    let mut i: usize = 0;
    while i < n
        invariant
            i <= n,
            forall|j: int| 0 <= j < i ==> vault_key(#[trigger] locks@[j]) != (user, mint),
        decreases n - i,
    {
        if locks[i].user == user && locks[i].mint == mint {
            return Some(i);
        }
        i = i + 1;
    }
    None
}

} // verus!
