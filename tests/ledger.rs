use token_locker::address::derive_vault_address;
use token_locker::config::{
    charge_fee, initialize_config, initialize_usdc_account, update_usdc_mint, withdraw_fees,
    InitializeConfig, InitializeUsdcAccount, OwnerConfig, UpdateUsdcMint, WithdrawFees, FEE_IN_USD,
};
use token_locker::error::ErrorCode;
use token_locker::identity::Identity;

fn id(n: u8) -> Identity {
    Identity::new([n; 32])
}

fn config(operator: u8, fees: u64) -> OwnerConfig {
    OwnerConfig { owner: id(operator), usdc_mint: id(200), collected_fees: fees }
}

#[test]
fn identity_zero_and_equality() {
    assert!(Identity::zero().is_zero());
    assert!(!id(1).is_zero());
    let mut bytes = [0u8; 32];
    bytes[31] = 1;
    assert!(!Identity::new(bytes).is_zero());
    assert!(id(3) == id(3));
    assert!(id(3) != id(4));
    assert!(Identity::new(bytes) != Identity::zero());
}

#[test]
fn address_is_deterministic_and_distinct() {
    let a = derive_vault_address(&id(1), &id(2), 1);
    let b = derive_vault_address(&id(1), &id(2), 1);
    assert!(a == b);
    assert!(a != derive_vault_address(&id(9), &id(2), 1));
    assert!(a != derive_vault_address(&id(1), &id(9), 1));
    assert!(a != derive_vault_address(&id(1), &id(2), 2));
}

#[test]
fn seed_bytes_layout() {
    let a = derive_vault_address(&id(1), &id(2), 0x0102);
    let s = a.seed_bytes();
    assert_eq!(s.len(), 85);
    assert_eq!(&s[0..13], b"TokenLockInfo");
    assert_eq!(&s[13..45], &[1u8; 32]);
    assert_eq!(&s[45..77], &[2u8; 32]);
    assert_eq!(&s[77..85], &0x0102u64.to_le_bytes());
    let other = derive_vault_address(&id(1), &id(2), 0x0201).seed_bytes();
    assert_ne!(s, other);
}

#[test]
fn initialize_config_once() {
    let mut ctx = InitializeConfig { owner: id(7), config: None };
    assert_eq!(initialize_config(&mut ctx, id(200)), Ok(()));
    let c = ctx.config.unwrap();
    assert!(c.owner == id(7));
    assert!(c.usdc_mint == id(200));
    assert_eq!(c.collected_fees, 0);
    assert_eq!(initialize_config(&mut ctx, id(201)), Err(ErrorCode::AlreadyInitialized));
    assert!(ctx.config.unwrap().usdc_mint == id(200));
}

#[test]
fn initialize_usdc_account_once() {
    let mut ctx = InitializeUsdcAccount {
        owner: id(7),
        config: config(7, 0),
        usdc_mint: id(200),
        program_usdc_account_exists: false,
    };
    assert_eq!(initialize_usdc_account(&mut ctx), Ok(()));
    assert!(ctx.program_usdc_account_exists);
    assert_eq!(initialize_usdc_account(&mut ctx), Err(ErrorCode::AlreadyInitialized));
}

#[test]
fn charge_fee_adds_fixed_amount() {
    let mut c = config(7, 10);
    assert_eq!(charge_fee(&mut c), Ok(()));
    assert_eq!(c.collected_fees, 10 + 5_000_000);
    assert_eq!(FEE_IN_USD, 5_000_000);
}

#[test]
fn charge_fee_overflow() {
    let mut c = config(7, u64::MAX - 4_999_999);
    assert_eq!(charge_fee(&mut c), Err(ErrorCode::ArithmeticOverflow));
    assert_eq!(c.collected_fees, u64::MAX - 4_999_999);
    let mut d = config(7, u64::MAX - 5_000_000);
    assert_eq!(charge_fee(&mut d), Ok(()));
    assert_eq!(d.collected_fees, u64::MAX);
}

#[test]
fn withdraw_fees_by_operator() {
    let mut ctx = WithdrawFees { owner: id(7), config: config(7, 15_000_000) };
    assert_eq!(withdraw_fees(&mut ctx), Ok(15_000_000));
    assert_eq!(ctx.config.collected_fees, 0);
    assert!(ctx.config.owner == id(7));
    assert_eq!(withdraw_fees(&mut ctx), Err(ErrorCode::NoFeesToWithdraw));
}

#[test]
fn withdraw_fees_by_stranger() {
    let mut ctx = WithdrawFees { owner: id(8), config: config(7, 15_000_000) };
    assert_eq!(withdraw_fees(&mut ctx), Err(ErrorCode::UnauthorizedOwner));
    assert_eq!(ctx.config.collected_fees, 15_000_000);
}

#[test]
fn update_usdc_mint_rules() {
    let mut ctx = UpdateUsdcMint { owner: id(8), config: config(7, 0) };
    assert_eq!(update_usdc_mint(&mut ctx, id(201)), Err(ErrorCode::OnlyOwnerCanUpdate));
    assert!(ctx.config.usdc_mint == id(200));
    ctx.owner = id(7);
    assert_eq!(update_usdc_mint(&mut ctx, Identity::zero()), Err(ErrorCode::InvalidUsdcMint));
    assert!(ctx.config.usdc_mint == id(200));
    assert_eq!(update_usdc_mint(&mut ctx, id(201)), Ok(()));
    assert!(ctx.config.usdc_mint == id(201));
    assert!(ctx.config.owner == id(7));
}

#[test]
fn initialize_usdc_account_other_asset() {
    let mut ctx = InitializeUsdcAccount {
        owner: id(7),
        config: config(7, 0),
        usdc_mint: id(201),
        program_usdc_account_exists: false,
    };
    assert_eq!(initialize_usdc_account(&mut ctx), Err(ErrorCode::InvalidUsdcMint));
    assert!(!ctx.program_usdc_account_exists);
}
