use vstd::prelude::*;
use crate::address::{derive_vault_address, vault_address, AddressModel, VaultAddress};
use crate::config::{charge_fee, fee_fits, withdraw_fees_error, OwnerConfig, FEE_IN_USD};
use crate::error::ErrorCode;
use crate::identity::{zero_identity, Identity};

verus! {

/// One vault's record: who locked what, how much is still held, until
/// when, and under which seed. After withdrawal the record stays, with a
/// locked amount of zero.
#[derive(Clone, Copy, Debug)]
pub struct TokenLockInfo {
    pub locker: Identity,
    pub token_mint: Identity,
    pub locked_amount: u64,
    pub unlock_time: u64,
    pub creation_time: u64,
    pub seed: u64,
}

impl TokenLockInfo {
    /// The address this record belongs at.
    pub open spec fn address_model(&self) -> AddressModel {
        vault_address(self.locker@, self.token_mint@, self.seed)
    }

    /// The address this record belongs at.
    pub fn address(&self) -> (r: VaultAddress)
        ensures
            r@ == self.address_model(),
    {
        derive_vault_address(&self.locker, &self.token_mint, self.seed)
    }

    /// The record's invariant: it unlocks after it was created. A new
    /// record also holds a positive amount; see `is_active`.
    pub open spec fn wf(&self) -> bool {
        self.unlock_time > self.creation_time
    }

    /// Whether the vault still holds its deposit.
    pub open spec fn is_active(&self) -> bool {
        self.locked_amount > 0
    }
}

/// What `lock_tokens` reads: the signer, the asset of the signer's token
/// account, the current time, whether a record already exists at the new
/// vault's address, and the configuration that collects the fee.
#[derive(Clone, Copy, Debug)]
pub struct LockTokens {
    pub locker: Identity,
    pub token_mint: Identity,
    pub now: u64,
    pub lock_account_exists: bool,
    pub config: OwnerConfig,
}

/// What `lock_native_tokens` reads: as for `lock_tokens`, without an asset.
#[derive(Clone, Copy, Debug)]
pub struct LockNativeTokens {
    pub locker: Identity,
    pub now: u64,
    pub lock_account_exists: bool,
    pub config: OwnerConfig,
}

/// What `withdraw_tokens` reads: the signer, the current time, and the
/// vault record presented together with the address it was found at.
#[derive(Clone, Copy, Debug)]
pub struct WithdrawTokens {
    pub locker: Identity,
    pub now: u64,
    pub lock_address: VaultAddress,
    pub lock_account: TokenLockInfo,
}

/// What `withdraw_native_tokens` reads: as for `withdraw_tokens`, and the
/// native balances of the vault and of the signer.
#[derive(Clone, Copy, Debug)]
pub struct WithdrawNativeTokens {
    pub locker: Identity,
    pub now: u64,
    pub lock_address: VaultAddress,
    pub lock_account: TokenLockInfo,
    pub lock_lamports: u64,
    pub locker_lamports: u64,
}

/// What `extend_lock_time` reads: the signer, the current time, and the
/// vault record with the address it was found at.
#[derive(Clone, Copy, Debug)]
pub struct ExtendLockTime {
    pub locker: Identity,
    pub now: u64,
    pub lock_address: VaultAddress,
    pub lock_account: TokenLockInfo,
}

/// The error a lock creation gives, if any, in the order of the checks.
pub open spec fn lock_error(
    lock_account_exists: bool,
    now: u64,
    amount: u64,
    unlock_time: u64,
    collected_fees: u64,
) -> Option<ErrorCode> {
    if lock_account_exists {
        Some(ErrorCode::AlreadyInitialized)
    } else if unlock_time <= now {
        Some(ErrorCode::InvalidUnlockTime)
    } else if amount == 0 {
        Some(ErrorCode::InvalidAmount)
    } else if !fee_fits(collected_fees) {
        Some(ErrorCode::ArithmeticOverflow)
    } else {
        None
    }
}

/// The record a successful lock creation writes.
pub open spec fn new_lock_matches(
    r: TokenLockInfo,
    locker: Identity,
    token_mint: Seq<u8>,
    now: u64,
    amount: u64,
    unlock_time: u64,
    seed: u64,
) -> bool {
    &&& r.locker == locker
    &&& r.token_mint@ == token_mint
    &&& r.locked_amount == amount
    &&& r.unlock_time == unlock_time
    &&& r.creation_time == now
    &&& r.seed == seed
}

/// Locks `amount` of the signer's asset until `unlock_time` under `seed`,
/// charging the fee to the configuration. On success it returns the new
/// vault's record; the caller then moves the fee and the deposit.
pub fn lock_tokens(ctx: &mut LockTokens, amount: u64, unlock_time: u64, seed: u64) -> (r: Result<
    TokenLockInfo,
    ErrorCode,
>)
    ensures
        match lock_error(
            old(ctx).lock_account_exists,
            old(ctx).now,
            amount,
            unlock_time,
            old(ctx).config.collected_fees,
        ) {
            Some(e) => r == Err::<TokenLockInfo, ErrorCode>(e) && *final(ctx) == *old(ctx),
            None => r is Ok && r->Ok_0.wf() && r->Ok_0.is_active() && new_lock_matches(
                r->Ok_0,
                old(ctx).locker,
                old(ctx).token_mint@,
                old(ctx).now,
                amount,
                unlock_time,
                seed,
            ) && *final(ctx) == (LockTokens {
                config: OwnerConfig {
                    collected_fees: (old(ctx).config.collected_fees + FEE_IN_USD) as u64,
                    ..old(ctx).config
                },
                ..*old(ctx)
            }),
        },
{
    if ctx.lock_account_exists {
        return Err(ErrorCode::AlreadyInitialized);
    }
    if unlock_time <= ctx.now {
        return Err(ErrorCode::InvalidUnlockTime);
    }
    if amount == 0 {
        return Err(ErrorCode::InvalidAmount);
    }
    match charge_fee(&mut ctx.config) {
        Ok(()) => {},
        Err(e) => return Err(e),
    }
    Ok(
        TokenLockInfo {
            locker: ctx.locker,
            token_mint: ctx.token_mint,
            locked_amount: amount,
            unlock_time,
            creation_time: ctx.now,
            seed,
        },
    )
}

/// Locks `amount` of the native balance until `unlock_time` under `seed`;
/// the vault's asset is the all-zero identity. As for `lock_tokens`, the
/// fee is charged to the configuration.
pub fn lock_native_tokens(
    ctx: &mut LockNativeTokens,
    amount: u64,
    unlock_time: u64,
    seed: u64,
) -> (r: Result<TokenLockInfo, ErrorCode>)
    ensures
        match lock_error(
            old(ctx).lock_account_exists,
            old(ctx).now,
            amount,
            unlock_time,
            old(ctx).config.collected_fees,
        ) {
            Some(e) => r == Err::<TokenLockInfo, ErrorCode>(e) && *final(ctx) == *old(ctx),
            None => r is Ok && r->Ok_0.wf() && r->Ok_0.is_active() && new_lock_matches(
                r->Ok_0,
                old(ctx).locker,
                zero_identity(),
                old(ctx).now,
                amount,
                unlock_time,
                seed,
            ) && *final(ctx) == (LockNativeTokens {
                config: OwnerConfig {
                    collected_fees: (old(ctx).config.collected_fees + FEE_IN_USD) as u64,
                    ..old(ctx).config
                },
                ..*old(ctx)
            }),
        },
{
    if ctx.lock_account_exists {
        return Err(ErrorCode::AlreadyInitialized);
    }
    if unlock_time <= ctx.now {
        return Err(ErrorCode::InvalidUnlockTime);
    }
    if amount == 0 {
        return Err(ErrorCode::InvalidAmount);
    }
    match charge_fee(&mut ctx.config) {
        Ok(()) => {},
        Err(e) => return Err(e),
    }
    Ok(
        TokenLockInfo {
            locker: ctx.locker,
            token_mint: Identity::zero(),
            locked_amount: amount,
            unlock_time,
            creation_time: ctx.now,
            seed,
        },
    )
}

/// The error a withdrawal gives, if any, in the order of the checks: the
/// presented address must be the one derived from the caller, the vault's
/// asset (`asset`) and its seed; then the caller must own the vault,
/// something must be left in it, and the unlock time must have come. An
/// emptied vault thus refuses its owner with the zero-balance error at any
/// time, and a stranger is refused at any time.
pub open spec fn withdraw_error(
    caller: Seq<u8>,
    now: u64,
    address: AddressModel,
    asset: Seq<u8>,
    lock: TokenLockInfo,
) -> Option<ErrorCode> {
    if address != vault_address(caller, asset, lock.seed) {
        Some(ErrorCode::UnauthorizedLocker)
    } else if lock.locker@ != caller {
        Some(ErrorCode::UnauthorizedLocker)
    } else if lock.locked_amount == 0 {
        Some(ErrorCode::NoTokensToWithdraw)
    } else if now < lock.unlock_time {
        Some(ErrorCode::LockNotExpired)
    } else {
        None
    }
}

/// Empties a vault of its asset for its owner once the unlock time has come.
/// On success the record's amount drops to zero and the former amount is
/// returned: the caller moves it from the vault to the owner.
pub fn withdraw_tokens(ctx: &mut WithdrawTokens) -> (r: Result<u64, ErrorCode>)
    ensures
        old(ctx).lock_account.wf() ==> final(ctx).lock_account.wf(),
        match withdraw_error(
            old(ctx).locker@,
            old(ctx).now,
            old(ctx).lock_address@,
            old(ctx).lock_account.token_mint@,
            old(ctx).lock_account,
        ) {
            Some(e) => r == Err::<u64, ErrorCode>(e) && *final(ctx) == *old(ctx),
            None => r == Ok::<u64, ErrorCode>(old(ctx).lock_account.locked_amount) && *final(ctx)
                == (WithdrawTokens {
                lock_account: TokenLockInfo { locked_amount: 0, ..old(ctx).lock_account },
                ..*old(ctx)
            }),
        },
{
    let expected = derive_vault_address(&ctx.locker, &ctx.lock_account.token_mint, ctx.lock_account.seed);
    if ctx.lock_address != expected {
        return Err(ErrorCode::UnauthorizedLocker);
    }
    if ctx.lock_account.locker != ctx.locker {
        return Err(ErrorCode::UnauthorizedLocker);
    }
    if ctx.lock_account.locked_amount == 0 {
        return Err(ErrorCode::NoTokensToWithdraw);
    }
    if ctx.now < ctx.lock_account.unlock_time {
        return Err(ErrorCode::LockNotExpired);
    }
    let amount = ctx.lock_account.locked_amount;
    ctx.lock_account.locked_amount = 0;
    Ok(amount)
}

/// The error a native withdrawal gives, if any: those of a withdrawal, with
/// the address derived from the all-zero asset, and then the balance checks:
/// a vault balance short of the amount, or an owner balance that the amount
/// would overflow, is an arithmetic error.
pub open spec fn withdraw_native_error(
    caller: Seq<u8>,
    now: u64,
    address: AddressModel,
    lock: TokenLockInfo,
    lock_lamports: u64,
    locker_lamports: u64,
) -> Option<ErrorCode> {
    match withdraw_error(caller, now, address, zero_identity(), lock) {
        Some(e) => Some(e),
        None => if lock_lamports < lock.locked_amount || locker_lamports + lock.locked_amount
            > u64::MAX {
            Some(ErrorCode::ArithmeticOverflow)
        } else {
            None
        },
    }
}

/// Empties a native vault for its owner once the unlock time has come,
/// debiting the vault's balance and crediting the owner's directly.
pub fn withdraw_native_tokens(ctx: &mut WithdrawNativeTokens) -> (r: Result<u64, ErrorCode>)
    ensures
        old(ctx).lock_account.wf() ==> final(ctx).lock_account.wf(),
        match withdraw_native_error(
            old(ctx).locker@,
            old(ctx).now,
            old(ctx).lock_address@,
            old(ctx).lock_account,
            old(ctx).lock_lamports,
            old(ctx).locker_lamports,
        ) {
            Some(e) => r == Err::<u64, ErrorCode>(e) && *final(ctx) == *old(ctx),
            None => r == Ok::<u64, ErrorCode>(old(ctx).lock_account.locked_amount) && *final(ctx)
                == (WithdrawNativeTokens {
                lock_account: TokenLockInfo { locked_amount: 0, ..old(ctx).lock_account },
                lock_lamports: (old(ctx).lock_lamports - old(ctx).lock_account.locked_amount) as u64,
                locker_lamports: (old(ctx).locker_lamports
                    + old(ctx).lock_account.locked_amount) as u64,
                ..*old(ctx)
            }),
        },
{
    let native = Identity::zero();
    let expected = derive_vault_address(&ctx.locker, &native, ctx.lock_account.seed);
    if ctx.lock_address != expected {
        return Err(ErrorCode::UnauthorizedLocker);
    }
    if ctx.lock_account.locker != ctx.locker {
        return Err(ErrorCode::UnauthorizedLocker);
    }
    if ctx.lock_account.locked_amount == 0 {
        return Err(ErrorCode::NoTokensToWithdraw);
    }
    if ctx.now < ctx.lock_account.unlock_time {
        return Err(ErrorCode::LockNotExpired);
    }
    let amount = ctx.lock_account.locked_amount;
    if ctx.lock_lamports < amount {
        return Err(ErrorCode::ArithmeticOverflow);
    }
    let credited = match ctx.locker_lamports.checked_add(amount) {
        Some(v) => v,
        None => return Err(ErrorCode::ArithmeticOverflow),
    };
    ctx.lock_account.locked_amount = 0;
    ctx.lock_lamports = ctx.lock_lamports - amount;
    ctx.locker_lamports = credited;
    Ok(amount)
}

/// The error an extension gives, if any, in the order of the checks.
pub open spec fn extend_error(
    caller: Seq<u8>,
    now: u64,
    address: AddressModel,
    lock: TokenLockInfo,
    new_unlock_time: u64,
) -> Option<ErrorCode> {
    if address != vault_address(caller, lock.token_mint@, lock.seed) {
        Some(ErrorCode::OnlyLockerCanExtend)
    } else if lock.locker@ != caller {
        Some(ErrorCode::OnlyLockerCanExtend)
    } else if new_unlock_time <= lock.unlock_time {
        Some(ErrorCode::NewUnlockTimeMustBeGreater)
    } else if new_unlock_time <= now {
        Some(ErrorCode::NewUnlockTimeMustBeInFuture)
    } else {
        None
    }
}

/// Moves a vault's unlock time later, for its owner; nothing else changes.
pub fn extend_lock_time(ctx: &mut ExtendLockTime, new_unlock_time: u64) -> (r: Result<
    (),
    ErrorCode,
>)
    ensures
        old(ctx).lock_account.wf() ==> final(ctx).lock_account.wf(),
        match extend_error(
            old(ctx).locker@,
            old(ctx).now,
            old(ctx).lock_address@,
            old(ctx).lock_account,
            new_unlock_time,
        ) {
            Some(e) => r == Err::<(), ErrorCode>(e) && *final(ctx) == *old(ctx),
            None => r is Ok && *final(ctx) == (ExtendLockTime {
                lock_account: TokenLockInfo { unlock_time: new_unlock_time, ..old(ctx).lock_account },
                ..*old(ctx)
            }),
        },
{
    let expected = derive_vault_address(&ctx.locker, &ctx.lock_account.token_mint, ctx.lock_account.seed);
    if ctx.lock_address != expected {
        return Err(ErrorCode::OnlyLockerCanExtend);
    }
    if ctx.lock_account.locker != ctx.locker {
        return Err(ErrorCode::OnlyLockerCanExtend);
    }
    if new_unlock_time <= ctx.lock_account.unlock_time {
        return Err(ErrorCode::NewUnlockTimeMustBeGreater);
    }
    if new_unlock_time <= ctx.now {
        return Err(ErrorCode::NewUnlockTimeMustBeInFuture);
    }
    ctx.lock_account.unlock_time = new_unlock_time;
    Ok(())
}

/// A withdrawal from a vault presented at its own address succeeds exactly
/// when the unlock time has come, the caller owns the vault and something
/// is left in it.
pub proof fn lemma_withdraw_succeeds_iff(caller: Seq<u8>, now: u64, lock: TokenLockInfo)
    ensures
        withdraw_error(caller, now, lock.address_model(), lock.token_mint@, lock) is None <==> (
        now >= lock.unlock_time && caller == lock.locker@ && lock.locked_amount > 0),
{
}

/// A native withdrawal from a native vault at its own address succeeds
/// exactly when a withdrawal would and the balances can carry the amount.
pub proof fn lemma_withdraw_native_succeeds_iff(
    caller: Seq<u8>,
    now: u64,
    lock: TokenLockInfo,
    lock_lamports: u64,
    locker_lamports: u64,
)
    requires
        lock.token_mint@ == zero_identity(),
    ensures
        withdraw_native_error(
            caller,
            now,
            lock.address_model(),
            lock,
            lock_lamports,
            locker_lamports,
        ) is None <==> (now >= lock.unlock_time && caller == lock.locker@ && lock.locked_amount > 0
            && lock_lamports >= lock.locked_amount && locker_lamports + lock.locked_amount
            <= u64::MAX),
{
}

/// After a successful withdrawal the vault is empty for good: whatever
/// extensions are requested afterwards, the amount stays zero, every later
/// withdrawal fails at any time, and the owner's fails with the zero-balance
/// error; for a native vault the same holds whatever the balances.
pub proof fn lemma_withdraw_only_once(
    caller: Seq<u8>,
    now: u64,
    address: AddressModel,
    asset: Seq<u8>,
    lock: TokenLockInfo,
    requests: Seq<ExtendRequest>,
    later_caller: Seq<u8>,
    later: u64,
    lock_lamports: u64,
    locker_lamports: u64,
)
    requires
        withdraw_error(caller, now, address, asset, lock) is None,
    ensures
        ({
            let emptied = after_extensions(
                address,
                TokenLockInfo { locked_amount: 0, ..lock },
                requests,
            );
            &&& emptied.locked_amount == 0
            &&& withdraw_error(later_caller, later, address, asset, emptied) is Some
            &&& later_caller == caller ==> withdraw_error(
                later_caller,
                later,
                address,
                asset,
                emptied,
            ) == Some(ErrorCode::NoTokensToWithdraw)
            &&& asset == zero_identity() ==> withdraw_native_error(
                later_caller,
                later,
                address,
                emptied,
                lock_lamports,
                locker_lamports,
            ) == withdraw_error(later_caller, later, address, asset, emptied)
        }),
{
    lemma_extensions_monotonic(address, TokenLockInfo { locked_amount: 0, ..lock }, requests);
}

/// An extension of a vault presented at its own address succeeds exactly
/// when the new time is after both the current unlock time and now, and
/// the caller owns the vault.
pub proof fn lemma_extend_succeeds_iff(
    caller: Seq<u8>,
    now: u64,
    lock: TokenLockInfo,
    new_unlock_time: u64,
)
    ensures
        extend_error(caller, now, lock.address_model(), lock, new_unlock_time) is None <==> (
        new_unlock_time > lock.unlock_time && new_unlock_time > now && caller == lock.locker@),
{
}

/// One extension request: who asks, when, and for which new unlock time.
pub type ExtendRequest = (Seq<u8>, u64, u64);

/// The record after `extend_lock_time` has been called with each request in
/// turn, each refused one leaving the record as it was.
pub open spec fn after_extensions(
    address: AddressModel,
    lock: TokenLockInfo,
    requests: Seq<ExtendRequest>,
) -> TokenLockInfo
    decreases requests.len(),
{
    if requests.len() == 0 {
        lock
    } else {
        let (caller, now, new_unlock_time) = requests[0];
        let next = if extend_error(caller, now, address, lock, new_unlock_time) is None {
            TokenLockInfo { unlock_time: new_unlock_time, ..lock }
        } else {
            lock
        };
        after_extensions(address, next, requests.drop_first())
    }
}

/// Over any sequence of extension requests the unlock time never moves
/// earlier, and nothing but the unlock time changes.
pub proof fn lemma_extensions_monotonic(
    address: AddressModel,
    lock: TokenLockInfo,
    requests: Seq<ExtendRequest>,
)
    ensures
        after_extensions(address, lock, requests).unlock_time >= lock.unlock_time,
        after_extensions(address, lock, requests) == (TokenLockInfo {
            unlock_time: after_extensions(address, lock, requests).unlock_time,
            ..lock
        }),
    decreases requests.len(),
{
    if requests.len() > 0 {
        let (caller, now, new_unlock_time) = requests[0];
        let next = if extend_error(caller, now, address, lock, new_unlock_time) is None {
            TokenLockInfo { unlock_time: new_unlock_time, ..lock }
        } else {
            lock
        };
        lemma_extensions_monotonic(address, next, requests.drop_first());
    }
}

/// Whoever does not own a vault presented at its own address is refused
/// both withdrawal and extension with an authorization error, at any time.
pub proof fn lemma_non_owner_refused(
    caller: Seq<u8>,
    now: u64,
    lock: TokenLockInfo,
    new_unlock_time: u64,
)
    requires
        caller != lock.locker@,
    ensures
        withdraw_error(caller, now, lock.address_model(), lock.token_mint@, lock) == Some(
            ErrorCode::UnauthorizedLocker,
        ),
        extend_error(caller, now, lock.address_model(), lock, new_unlock_time) == Some(
            ErrorCode::OnlyLockerCanExtend,
        ),
{
}


/// A record written by a lock creation lies at the address derived from its
/// owner, asset and seed, so re-deriving from the same inputs finds it.
pub proof fn lemma_new_lock_address(
    r: TokenLockInfo,
    locker: Identity,
    token_mint: Seq<u8>,
    now: u64,
    amount: u64,
    unlock_time: u64,
    seed: u64,
)
    requires
        new_lock_matches(r, locker, token_mint, now, amount, unlock_time, seed),
    ensures
        r.address_model() == vault_address(locker@, token_mint, seed),
{
}

/// One lock-creation request, token or native: whether a record already
/// exists at its address, the time, the amount and the unlock time.
pub type LockRequest = (bool, u64, u64, u64);

/// The collected fees after each request has been made in turn.
pub open spec fn fees_after_locks(fees: u64, requests: Seq<LockRequest>) -> u64
    decreases requests.len(),
{
    if requests.len() == 0 {
        fees
    } else {
        let (exists, now, amount, unlock_time) = requests[0];
        let next = if lock_error(exists, now, amount, unlock_time, fees) is None {
            (fees + FEE_IN_USD) as u64
        } else {
            fees
        };
        fees_after_locks(next, requests.drop_first())
    }
}

/// How many of the requests, made in turn, create a lock.
pub open spec fn locks_created(fees: u64, requests: Seq<LockRequest>) -> nat
    decreases requests.len(),
{
    if requests.len() == 0 {
        0
    } else {
        let (exists, now, amount, unlock_time) = requests[0];
        if lock_error(exists, now, amount, unlock_time, fees) is None {
            1 + locks_created((fees + FEE_IN_USD) as u64, requests.drop_first())
        } else {
            locks_created(fees, requests.drop_first())
        }
    }
}

/// Over any sequence of lock creations the collected fees grow by exactly
/// one fee per lock created, whatever the assets and amounts; once at least
/// one lock was created, the operator's fee withdrawal succeeds and hands
/// out that whole sum.
pub proof fn lemma_fees_count_creations(config: OwnerConfig, requests: Seq<LockRequest>)
    ensures
        fees_after_locks(config.collected_fees, requests) == config.collected_fees + FEE_IN_USD
            * locks_created(config.collected_fees, requests),
        config.collected_fees == 0 && locks_created(0, requests) > 0 ==> withdraw_fees_error(
            config.owner@,
            OwnerConfig { collected_fees: fees_after_locks(0, requests), ..config },
        ) is None,
    decreases requests.len(),
{
    if requests.len() > 0 {
        let fees = config.collected_fees;
        let (exists, now, amount, unlock_time) = requests[0];
        let next = if lock_error(exists, now, amount, unlock_time, fees) is None {
            (fees + FEE_IN_USD) as u64
        } else {
            fees
        };
        lemma_fees_count_creations(
            OwnerConfig { collected_fees: next, ..config },
            requests.drop_first(),
        );
    }
}

} // verus!
