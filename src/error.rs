use vstd::prelude::*;

verus! {

/// Why an operation was refused. A refused operation changes nothing.
#[derive(Clone, Copy, Debug, PartialEq, Eq, Structural)]
pub enum ErrorCode {
    /// The unlock time of a new lock is not after the current time.
    InvalidUnlockTime,
    /// The amount of a new lock is zero.
    InvalidAmount,
    /// A withdrawal came before the unlock time.
    LockNotExpired,
    /// The caller is not the vault's owner, or does not match its address.
    UnauthorizedLocker,
    /// The vault holds nothing: it was already emptied.
    NoTokensToWithdraw,
    /// A fee withdrawal by someone other than the operator.
    UnauthorizedOwner,
    /// A fee withdrawal with no fees collected.
    NoFeesToWithdraw,
    /// The new fee asset is the all-zero identity, or an account is
    /// provisioned for an asset other than the configured fee asset.
    InvalidUsdcMint,
    /// An extension by someone other than the vault's owner.
    OnlyLockerCanExtend,
    /// The new unlock time is not after the current one.
    NewUnlockTimeMustBeGreater,
    /// The new unlock time is not after the current time.
    NewUnlockTimeMustBeInFuture,
    /// A fee-asset update by someone other than the operator.
    OnlyOwnerCanUpdate,
    /// A record that may be created once already exists.
    AlreadyInitialized,
    /// Adding to a balance or to the fee counter would overflow, or a
    /// vault's balance is short of the amount its record holds.
    ArithmeticOverflow,
}

} // verus!
