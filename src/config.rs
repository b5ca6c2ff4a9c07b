use vstd::prelude::*;
use crate::error::ErrorCode;
use crate::identity::{zero_identity, Identity};

verus! {

/// The flat fee charged on every lock creation, in minor units of the
/// fee asset (5.0 units at 6 decimal places).
pub const FEE_IN_USD: u64 = 5_000_000;

/// The service's single configuration record: its operator, the asset in
/// which fees are paid, and the fees collected and not yet withdrawn.
#[derive(Clone, Copy, Debug)]
pub struct OwnerConfig {
    pub owner: Identity,
    pub usdc_mint: Identity,
    pub collected_fees: u64,
}

/// What `initialize_config` reads: the signer, and the record at the
/// configuration's well-known address, if one is there.
#[derive(Clone, Copy, Debug)]
pub struct InitializeConfig {
    pub owner: Identity,
    pub config: Option<OwnerConfig>,
}

/// What `initialize_usdc_account` reads: the signer, the configuration, the
/// fee asset, and whether the service's fee-holding account exists.
#[derive(Clone, Copy, Debug)]
pub struct InitializeUsdcAccount {
    pub owner: Identity,
    pub config: OwnerConfig,
    pub usdc_mint: Identity,
    pub program_usdc_account_exists: bool,
}

/// What `withdraw_fees` reads: the signer and the configuration.
#[derive(Clone, Copy, Debug)]
pub struct WithdrawFees {
    pub owner: Identity,
    pub config: OwnerConfig,
}

/// What `update_usdc_mint` reads: the signer and the configuration.
#[derive(Clone, Copy, Debug)]
pub struct UpdateUsdcMint {
    pub owner: Identity,
    pub config: OwnerConfig,
}

/// Whether `fees` can take one more fee without overflowing.
pub open spec fn fee_fits(fees: u64) -> bool {
    fees + FEE_IN_USD <= u64::MAX
}

/// Adds the creation fee to the collected fees, or refuses on overflow.
pub fn charge_fee(config: &mut OwnerConfig) -> (r: Result<(), ErrorCode>)
    ensures
        r is Ok <==> fee_fits(old(config).collected_fees),
        r is Err ==> r == Err::<(), ErrorCode>(ErrorCode::ArithmeticOverflow) && *final(config)
            == *old(config),
        r is Ok ==> final(config).collected_fees == old(config).collected_fees + FEE_IN_USD
            && final(config).owner == old(config).owner && final(config).usdc_mint == old(
            config,
        ).usdc_mint,
{
    match config.collected_fees.checked_add(FEE_IN_USD) {
        Some(total) => {
            config.collected_fees = total;
            Ok(())
        },
        None => Err(ErrorCode::ArithmeticOverflow),
    }
}

/// Creates the configuration with the signer as operator, once: a second
/// call finds the record and fails.
pub fn initialize_config(ctx: &mut InitializeConfig, usdc_mint: Identity) -> (r: Result<
    (),
    ErrorCode,
>)
    ensures
        r is Ok <==> old(ctx).config is None,
        old(ctx).config is Some <==> r == Err::<(), ErrorCode>(ErrorCode::AlreadyInitialized),
        r is Err ==> *final(ctx) == *old(ctx),
        r is Ok ==> final(ctx).owner == old(ctx).owner && final(ctx).config == Some(
            (OwnerConfig { owner: old(ctx).owner, usdc_mint, collected_fees: 0 }),
        ),
{
    if ctx.config.is_some() {
        return Err(ErrorCode::AlreadyInitialized);
    }
    ctx.config = Some(OwnerConfig { owner: ctx.owner, usdc_mint, collected_fees: 0 });
    Ok(())
}

/// The error `initialize_usdc_account` gives, if any: the account may be
/// provisioned once, and only for the configured fee asset.
pub open spec fn initialize_usdc_account_error(ctx: InitializeUsdcAccount) -> Option<ErrorCode> {
    if ctx.program_usdc_account_exists {
        Some(ErrorCode::AlreadyInitialized)
    } else if ctx.usdc_mint@ != ctx.config.usdc_mint@ {
        Some(ErrorCode::InvalidUsdcMint)
    } else {
        None
    }
}

/// Provisions the service's fee-holding account for the fee asset, once.
pub fn initialize_usdc_account(ctx: &mut InitializeUsdcAccount) -> (r: Result<(), ErrorCode>)
    ensures
        r is Ok <==> (!old(ctx).program_usdc_account_exists && old(ctx).usdc_mint@ == old(
            ctx,
        ).config.usdc_mint@),
        match initialize_usdc_account_error(*old(ctx)) {
            Some(e) => r == Err::<(), ErrorCode>(e),
            None => r is Ok,
        },
        r is Err ==> *final(ctx) == *old(ctx),
        r is Ok ==> *final(ctx) == (InitializeUsdcAccount {
            program_usdc_account_exists: true,
            ..*old(ctx)
        }),
{
    if ctx.program_usdc_account_exists {
        return Err(ErrorCode::AlreadyInitialized);
    }
    if ctx.usdc_mint != ctx.config.usdc_mint {
        return Err(ErrorCode::InvalidUsdcMint);
    }
    ctx.program_usdc_account_exists = true;
    Ok(())
}

/// The error `withdraw_fees` gives, if any.
pub open spec fn withdraw_fees_error(caller: Seq<u8>, config: OwnerConfig) -> Option<ErrorCode> {
    if caller != config.owner@ {
        Some(ErrorCode::UnauthorizedOwner)
    } else if config.collected_fees == 0 {
        Some(ErrorCode::NoFeesToWithdraw)
    } else {
        None
    }
}

/// Lets the operator take all collected fees: the counter drops to zero and
/// the amount returned is what the caller transfers to the operator.
pub fn withdraw_fees(ctx: &mut WithdrawFees) -> (r: Result<u64, ErrorCode>)
    ensures
        match withdraw_fees_error(old(ctx).owner@, old(ctx).config) {
            Some(e) => r == Err::<u64, ErrorCode>(e) && *final(ctx) == *old(ctx),
            None => r == Ok::<u64, ErrorCode>(old(ctx).config.collected_fees) && *final(ctx) == (
            WithdrawFees {
                config: OwnerConfig { collected_fees: 0, ..old(ctx).config },
                ..*old(ctx)
            }),
        },
{
    if ctx.owner != ctx.config.owner {
        return Err(ErrorCode::UnauthorizedOwner);
    }
    if ctx.config.collected_fees == 0 {
        return Err(ErrorCode::NoFeesToWithdraw);
    }
    let amount = ctx.config.collected_fees;
    ctx.config.collected_fees = 0;
    Ok(amount)
}

/// The error `update_usdc_mint` gives, if any.
pub open spec fn update_usdc_mint_error(caller: Seq<u8>, config: OwnerConfig, new_usdc_mint: Seq<u8>) -> Option<ErrorCode> {
    if caller != config.owner@ {
        Some(ErrorCode::OnlyOwnerCanUpdate)
    } else if new_usdc_mint == zero_identity() {
        Some(ErrorCode::InvalidUsdcMint)
    } else {
        None
    }
}

/// Lets the operator replace the fee asset by any identity but the zero one.
pub fn update_usdc_mint(ctx: &mut UpdateUsdcMint, new_usdc_mint: Identity) -> (r: Result<
    (),
    ErrorCode,
>)
    ensures
        match update_usdc_mint_error(old(ctx).owner@, old(ctx).config, new_usdc_mint@) {
            Some(e) => r == Err::<(), ErrorCode>(e) && *final(ctx) == *old(ctx),
            None => r is Ok && *final(ctx) == (UpdateUsdcMint {
                config: OwnerConfig { usdc_mint: new_usdc_mint, ..old(ctx).config },
                ..*old(ctx)
            }),
        },
{
    if ctx.owner != ctx.config.owner {
        return Err(ErrorCode::OnlyOwnerCanUpdate);
    }
    if new_usdc_mint.is_zero() {
        return Err(ErrorCode::InvalidUsdcMint);
    }
    ctx.config.usdc_mint = new_usdc_mint;
    Ok(())
}

/// Fee withdrawal succeeds exactly when the caller is the operator and some
/// fees are collected; it then hands out exactly the collected amount and
/// leaves the counter at zero.
pub proof fn lemma_withdraw_fees_succeeds_iff(caller: Seq<u8>, config: OwnerConfig)
    ensures
        withdraw_fees_error(caller, config) is None <==> (caller == config.owner@
            && config.collected_fees > 0),
{
}

} // verus!
