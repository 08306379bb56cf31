use vstd::prelude::*;

use crate::identity::Identity;

verus! {

/// Pricing class of a vault. The tier fixes the closing fee charged when the
/// creator cancels; a `Lifetime` vault cancels free of charge.
#[derive(Clone, Copy, Debug, PartialEq, Eq, Structural)]
pub enum VaultTier {
    Base,
    Plus,
    Premium,
    Lifetime,
}

/// One escrow record: a per-creator, per-index vault holding a locked balance
/// and the conditions under which it releases to the beneficiary.
///
/// `unlock_unix` is a rolling deadline: each successful check-in pushes it
/// forward by `checkin_period_seconds` from the moment of the check-in.
/// `released` and `cancelled` are one-way latches and never both true.
#[derive(Clone, Copy, Debug)]
pub struct Vault {
    pub creator: Identity,
    pub beneficiary: Identity,
    pub usdc_mint: Identity,
    pub vault_token_account: Identity,
    pub amount_locked: u64,
    pub unlock_unix: i64,
    pub released: bool,
    pub cancelled: bool,
    pub is_test_vault: bool,
    pub bump: u8,
    pub name_hash: [u8; 32],
    pub vault_id: u64,
    pub vault_period_seconds: u32,
    pub notification_window_seconds: u32,
    pub grace_period_seconds: u32,
    pub last_checkin_unix: i64,
    pub tier: VaultTier,
    pub created_at: i64,
    pub creation_fee_paid: u64,
    pub checkin_period_seconds: u32,
}

/// Longest accepted check-in period: one year of seconds.
pub const MAX_CHECKIN_PERIOD_SECONDS: u32 = 31536000;

/// The closing fee owed on cancellation, in minor units of the asset.
pub open spec fn spec_closing_fee(tier: VaultTier) -> u64 {
    match tier {
        VaultTier::Base => 1_000_000,
        VaultTier::Plus => 5_000_000,
        VaultTier::Premium => 10_000_000,
        VaultTier::Lifetime => 0,
    }
}

/// The tiered fee schedule for cancelling a vault.
pub fn closing_fee(tier: VaultTier) -> (fee: u64)
    ensures
        fee == spec_closing_fee(tier),
{
    match tier {
        VaultTier::Base => 1_000_000,
        VaultTier::Plus => 5_000_000,
        VaultTier::Premium => 10_000_000,
        VaultTier::Lifetime => 0,
    }
}

/// Start of the notification window: the earliest moment a check-in is
/// accepted, and the moment from which cancellation is refused.
pub open spec fn notification_start(v: Vault) -> int {
    v.unlock_unix as int - v.notification_window_seconds as int
}

/// End of the grace overrun: the last moment (exclusive) a check-in is
/// accepted, and the first moment a release is authorized.
pub open spec fn grace_end(v: Vault) -> int {
    v.unlock_unix as int + v.grace_period_seconds as int
}

/// A deposit of `amount` at time `now` is accepted: the amount is positive,
/// the vault is in neither terminal state, the deadline has not passed, and
/// the new total stays within the per-vault cap.
pub open spec fn can_deposit(v: Vault, cap: u64, now: i64, amount: u64) -> bool {
    &&& amount > 0
    &&& !v.released
    &&& !v.cancelled
    &&& now < v.unlock_unix
    &&& v.amount_locked as int + amount as int <= cap as int
}

/// The vault after a deposit of `amount`: only the locked balance grows.
pub open spec fn deposited(v: Vault, amount: u64) -> Vault {
    Vault { amount_locked: (v.amount_locked + amount) as u64, ..v }
}

/// A check-in at time `now` is accepted: the vault is live, `now` lies in
/// [notification start, grace end), and the rolled-forward deadline fits in
/// a timestamp.
pub open spec fn can_check_in(v: Vault, now: i64) -> bool {
    &&& !v.released
    &&& !v.cancelled
    &&& i64::MIN <= notification_start(v)
    &&& notification_start(v) <= now
    &&& grace_end(v) <= i64::MAX
    &&& now < grace_end(v)
    &&& now as int + v.checkin_period_seconds as int <= i64::MAX
}

/// The vault after a check-in at `now`: the deadline rolls forward by one
/// check-in period from `now` itself, and the check-in is recorded.
pub open spec fn checked_in(v: Vault, now: i64) -> Vault {
    Vault {
        unlock_unix: (now + v.checkin_period_seconds as i64) as i64,
        last_checkin_unix: now,
        ..v
    }
}

/// A release at time `now` is authorized: the vault is unreleased, holds
/// funds, and the full grace overrun has elapsed with no check-in.
/// Authorization is purely temporal; any caller may trigger it.
pub open spec fn can_release(v: Vault, now: i64) -> bool {
    &&& grace_end(v) <= i64::MAX
    &&& !v.released
    &&& v.amount_locked > 0
    &&& grace_end(v) <= now
}

/// The vault after a release: the whole balance has moved to the beneficiary.
pub open spec fn released_vault(v: Vault) -> Vault {
    Vault { released: true, amount_locked: 0, ..v }
}

/// A cancellation at time `now` with the creator holding `creator_balance`
/// is accepted: the vault is live, the watchdog (notification) window has not
/// begun, and the creator can pay the tier's closing fee.
pub open spec fn can_cancel(v: Vault, now: i64, creator_balance: u64) -> bool {
    &&& !v.released
    &&& !v.cancelled
    &&& i64::MIN <= notification_start(v)
    &&& now < notification_start(v)
    &&& spec_closing_fee(v.tier) > 0 ==> creator_balance >= spec_closing_fee(v.tier)
}

/// The vault after a cancellation: the whole balance has moved back to the
/// creator.
pub open spec fn cancelled_vault(v: Vault) -> Vault {
    Vault { cancelled: true, amount_locked: 0, ..v }
}

/// Well-formedness of the latch flags, held at every reachable state: the two
/// terminal flags exclude each other, and a terminal vault holds no funds.
pub open spec fn flags_wf(v: Vault) -> bool {
    &&& !(v.released && v.cancelled)
    &&& v.released ==> v.amount_locked == 0
    &&& v.cancelled ==> v.amount_locked == 0
}

/// Well-formedness of the configured windows, established at creation and
/// never written afterwards: the notification window is a proper nonempty
/// prefix of the check-in period, and the grace period is nonempty.
pub open spec fn windows_wf(v: Vault) -> bool {
    &&& 0 < v.checkin_period_seconds <= MAX_CHECKIN_PERIOD_SECONDS
    &&& 0 < v.notification_window_seconds < v.checkin_period_seconds
    &&& 0 < v.grace_period_seconds
}

} // verus!
