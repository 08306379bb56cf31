use vstd::prelude::*;

verus! {

/// Every way an operation on the config or on a vault can be refused. Each
/// failed operation leaves all records unchanged and surfaces one of these.
#[derive(Clone, Copy, Debug, PartialEq, Eq, Structural)]
pub enum KeeprError {
    Paused,
    InvalidUnlockTime,
    AlreadyReleased,
    MismatchedMint,
    NothingToRelease,
    InvalidAmount,
    AboveVaultCap,
    Overflow,
    InvalidBeneficiary,
    DepositAfterUnlock,
    NotReleased,
    VaultNotEmpty,
    NotInNotificationWindow,
    InvalidNotificationWindow,
    InvalidGracePeriod,
    CounterNotInitialized,
    VaultAlreadyCancelled,
    CannotCancelAfterRelease,
    AdminTestWalletsLimitExceeded,
    CannotCancelDuringWatchdog,
    InsufficientBalanceForClosingFee,
    InvalidCheckinPeriod,
}

} // verus!
