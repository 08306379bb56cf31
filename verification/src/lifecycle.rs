use vstd::prelude::*;

use crate::config::Config;
use crate::counter::{counter_advance, VaultCounter};
use crate::errors::KeeprError;
use crate::events::{VaultCancelled, VaultCheckedIn, VaultCreated, VaultFunded, VaultReleased};
use crate::identity::{ids_have, Identity};
use crate::vault::{
    can_cancel, can_check_in, can_deposit, can_release, cancelled_vault, checked_in, closing_fee,
    deposited, flags_wf, grace_end, notification_start, released_vault, spec_closing_fee,
    windows_wf, Vault, VaultTier, MAX_CHECKIN_PERIOD_SECONDS,
};

verus! {

/// A creation request is accepted: the system is not paused, the beneficiary
/// differs from the creator (unless the creator is a test identity), the
/// creator's counter can still advance, the three windows are well formed,
/// and the first deadline fits in a timestamp.
pub open spec fn can_create(
    c: Config,
    counter: VaultCounter,
    creator: Identity,
    beneficiary: Identity,
    checkin_period_seconds: u32,
    notification_window_seconds: u32,
    grace_period_seconds: u32,
    now: i64,
) -> bool {
    &&& !c.paused
    &&& ids_have(c.admin_test_wallets@, creator) || beneficiary@ != creator@
    &&& counter.last_id < u64::MAX
    &&& 0 < checkin_period_seconds <= MAX_CHECKIN_PERIOD_SECONDS
    &&& 0 < notification_window_seconds < checkin_period_seconds
    &&& 0 < grace_period_seconds
    &&& now as int + checkin_period_seconds as int <= i64::MAX
}

/// The error a refused creation reports, in the order the checks are made.
pub open spec fn create_vault_err(
    c: Config,
    counter: VaultCounter,
    creator: Identity,
    beneficiary: Identity,
    checkin_period_seconds: u32,
    notification_window_seconds: u32,
    grace_period_seconds: u32,
) -> KeeprError {
    if c.paused {
        KeeprError::Paused
    } else if !ids_have(c.admin_test_wallets@, creator) && beneficiary@ == creator@ {
        KeeprError::InvalidBeneficiary
    } else if counter.last_id == u64::MAX {
        KeeprError::Overflow
    } else if checkin_period_seconds == 0 || checkin_period_seconds
        > MAX_CHECKIN_PERIOD_SECONDS {
        KeeprError::InvalidCheckinPeriod
    } else if notification_window_seconds == 0 || notification_window_seconds
        >= checkin_period_seconds {
        KeeprError::InvalidNotificationWindow
    } else if grace_period_seconds == 0 {
        KeeprError::InvalidGracePeriod
    } else {
        KeeprError::Overflow
    }
}

/// The record a successful creation writes: empty, live, first deadline one
/// check-in period from `now`, and never yet checked in.
pub open spec fn fresh_vault(
    c: Config,
    creator: Identity,
    vault_token_account: Identity,
    bump: u8,
    beneficiary: Identity,
    checkin_period_seconds: u32,
    name_hash: [u8; 32],
    notification_window_seconds: u32,
    grace_period_seconds: u32,
    tier: VaultTier,
    creation_fee_paid: u64,
    now: i64,
    vault_id: u64,
    is_test: bool,
) -> Vault {
    Vault {
        creator,
        beneficiary,
        usdc_mint: c.usdc_mint,
        vault_token_account,
        amount_locked: 0,
        unlock_unix: (now + checkin_period_seconds as i64) as i64,
        released: false,
        cancelled: false,
        is_test_vault: is_test,
        bump,
        name_hash,
        vault_id,
        vault_period_seconds: checkin_period_seconds,
        notification_window_seconds,
        grace_period_seconds,
        last_checkin_unix: 0,
        tier,
        created_at: now,
        creation_fee_paid,
        checkin_period_seconds,
    }
}

/// Creates a vault for `creator`, allocating the next id from the creator's
/// counter. The vault starts empty; funding is a separate deposit. `now` is
/// the clock read once for the whole operation; `vault_key`,
/// `vault_token_account` and `bump` name the records the host provisioned.
/// A refused creation leaves the counter untouched.
pub fn create_vault(
    config: &Config,
    counter: &mut VaultCounter,
    creator: Identity,
    vault_key: Identity,
    vault_token_account: Identity,
    bump: u8,
    beneficiary: Identity,
    checkin_period_seconds: u32,
    name_hash: [u8; 32],
    notification_window_seconds: u32,
    grace_period_seconds: u32,
    tier: VaultTier,
    creation_fee_paid: u64,
    now: i64,
) -> (r: Result<(Vault, VaultCreated), KeeprError>)
    ensures
        r is Ok <==> can_create(
            *config,
            *old(counter),
            creator,
            beneficiary,
            checkin_period_seconds,
            notification_window_seconds,
            grace_period_seconds,
            now,
        ),
        r is Ok ==> counter_advance(*old(counter), r->Ok_0.0.vault_id, *final(counter)),
        r is Ok ==> r->Ok_0.0 == fresh_vault(
            *config,
            creator,
            vault_token_account,
            bump,
            beneficiary,
            checkin_period_seconds,
            name_hash,
            notification_window_seconds,
            grace_period_seconds,
            tier,
            creation_fee_paid,
            now,
            (old(counter).last_id + 1) as u64,
            ids_have(config.admin_test_wallets@, creator),
        ),
        r is Ok ==> flags_wf(r->Ok_0.0) && windows_wf(r->Ok_0.0),
        r is Ok ==> r->Ok_0.1 == (VaultCreated {
            creator,
            vault: vault_key,
            beneficiary,
            unlock_unix: r->Ok_0.0.unlock_unix,
        }),
        r is Err ==> *final(counter) == *old(counter) && r->Err_0 == create_vault_err(
            *config,
            *old(counter),
            creator,
            beneficiary,
            checkin_period_seconds,
            notification_window_seconds,
            grace_period_seconds,
        ),
{
    if config.paused {
        return Err(KeeprError::Paused);
    }
    let is_test = crate::config::is_admin_tester(config, &creator);
    if !is_test && crate::identity::id_eq(&beneficiary, &creator) {
        return Err(KeeprError::InvalidBeneficiary);
    }
    if counter.last_id == u64::MAX {
        return Err(KeeprError::Overflow);
    }
    let vault_id = counter.last_id + 1;
    if checkin_period_seconds == 0 || checkin_period_seconds > MAX_CHECKIN_PERIOD_SECONDS {
        return Err(KeeprError::InvalidCheckinPeriod);
    }
    if notification_window_seconds == 0 || notification_window_seconds
        >= checkin_period_seconds {
        return Err(KeeprError::InvalidNotificationWindow);
    }
    if grace_period_seconds == 0 {
        return Err(KeeprError::InvalidGracePeriod);
    }
    if now > i64::MAX - checkin_period_seconds as i64 {
        return Err(KeeprError::Overflow);
    }
    let unlock_unix = now + checkin_period_seconds as i64;

    counter.last_id = vault_id;

    let vault = Vault {
        creator,
        beneficiary,
        usdc_mint: config.usdc_mint,
        vault_token_account,
        amount_locked: 0,
        unlock_unix,
        released: false,
        cancelled: false,
        is_test_vault: is_test,
        bump,
        name_hash,
        vault_id,
        vault_period_seconds: checkin_period_seconds,
        notification_window_seconds,
        grace_period_seconds,
        last_checkin_unix: 0,
        tier,
        created_at: now,
        creation_fee_paid,
        checkin_period_seconds,
    };
    let event = VaultCreated { creator, vault: vault_key, beneficiary, unlock_unix };
    Ok((vault, event))
}

/// The error a refused deposit reports, in the order the checks are made.
pub open spec fn deposit_err(v: Vault, cap: u64, now: i64, amount: u64) -> KeeprError {
    if amount == 0 {
        KeeprError::InvalidAmount
    } else if v.released {
        KeeprError::AlreadyReleased
    } else if v.cancelled {
        KeeprError::VaultAlreadyCancelled
    } else if now >= v.unlock_unix {
        KeeprError::DepositAfterUnlock
    } else if v.amount_locked as int + amount as int > u64::MAX {
        KeeprError::Overflow
    } else {
        KeeprError::AboveVaultCap
    }
}

/// Adds `amount` to the vault's locked balance. The host moves the same
/// amount from the creator into the vault's custody account, so the balance
/// recorded here stays equal to the balance held there. A vault in either
/// terminal state takes no further funds, and deposits are refused from the
/// deadline on, even before a release, so a payout already owed can no
/// longer be topped up.
pub fn deposit_usdc(
    config: &Config,
    vault: &mut Vault,
    vault_key: Identity,
    now: i64,
    amount: u64,
) -> (r: Result<VaultFunded, KeeprError>)
    ensures
        r is Ok <==> can_deposit(*old(vault), config.max_lock_per_vault, now, amount),
        r is Ok ==> *final(vault) == deposited(*old(vault), amount),
        r is Ok ==> r->Ok_0 == (VaultFunded { vault: vault_key, amount }),
        r is Err ==> *final(vault) == *old(vault) && r->Err_0 == deposit_err(
            *old(vault),
            config.max_lock_per_vault,
            now,
            amount,
        ),
{
    if amount == 0 {
        return Err(KeeprError::InvalidAmount);
    }
    if vault.released {
        return Err(KeeprError::AlreadyReleased);
    }
    if vault.cancelled {
        return Err(KeeprError::VaultAlreadyCancelled);
    }
    if now >= vault.unlock_unix {
        return Err(KeeprError::DepositAfterUnlock);
    }
    if amount > u64::MAX - vault.amount_locked {
        return Err(KeeprError::Overflow);
    }
    let new_total = vault.amount_locked + amount;
    if new_total > config.max_lock_per_vault {
        return Err(KeeprError::AboveVaultCap);
    }
    vault.amount_locked = new_total;
    Ok(VaultFunded { vault: vault_key, amount })
}

/// The error a refused check-in reports, in the order the checks are made.
/// A check-in past the grace overrun reports `AlreadyReleased`: the funds are
/// already due to the beneficiary even if no release has been executed yet.
pub open spec fn check_in_err(v: Vault, now: i64) -> KeeprError {
    if v.released {
        KeeprError::AlreadyReleased
    } else if v.cancelled {
        KeeprError::VaultAlreadyCancelled
    } else if notification_start(v) < i64::MIN {
        KeeprError::Overflow
    } else if now < notification_start(v) {
        KeeprError::NotInNotificationWindow
    } else if grace_end(v) > i64::MAX {
        KeeprError::Overflow
    } else if now >= grace_end(v) {
        KeeprError::AlreadyReleased
    } else {
        KeeprError::Overflow
    }
}

/// Rolls the deadline forward by one check-in period from `now`. A check-in
/// is accepted only from the notification window on, so the creator cannot
/// postpone the deadline arbitrarily early, and until the grace overrun ends,
/// so a lapsed deadline cannot be revived once the payout is due.
pub fn check_in(vault: &mut Vault, vault_key: Identity, now: i64) -> (r: Result<
    VaultCheckedIn,
    KeeprError,
>)
    ensures
        r is Ok <==> can_check_in(*old(vault), now),
        r is Ok ==> *final(vault) == checked_in(*old(vault), now),
        r is Ok ==> r->Ok_0 == (VaultCheckedIn {
            vault: vault_key,
            creator: old(vault).creator,
            new_unlock_unix: final(vault).unlock_unix,
        }),
        r is Err ==> *final(vault) == *old(vault) && r->Err_0 == check_in_err(*old(vault), now),
{
    if vault.released {
        return Err(KeeprError::AlreadyReleased);
    }
    if vault.cancelled {
        return Err(KeeprError::VaultAlreadyCancelled);
    }
    if vault.unlock_unix < i64::MIN + vault.notification_window_seconds as i64 {
        return Err(KeeprError::Overflow);
    }
    let window_start = vault.unlock_unix - vault.notification_window_seconds as i64;
    if now < window_start {
        return Err(KeeprError::NotInNotificationWindow);
    }
    if vault.unlock_unix > i64::MAX - vault.grace_period_seconds as i64 {
        return Err(KeeprError::Overflow);
    }
    let overrun_end = vault.unlock_unix + vault.grace_period_seconds as i64;
    if now >= overrun_end {
        return Err(KeeprError::AlreadyReleased);
    }
    if now > i64::MAX - vault.checkin_period_seconds as i64 {
        return Err(KeeprError::Overflow);
    }
    vault.unlock_unix = now + vault.checkin_period_seconds as i64;
    vault.last_checkin_unix = now;
    Ok(VaultCheckedIn {
        vault: vault_key,
        creator: vault.creator,
        new_unlock_unix: vault.unlock_unix,
    })
}

/// The error a refused release reports, in the order the checks are made.
pub open spec fn release_err(v: Vault, now: i64) -> KeeprError {
    if grace_end(v) > i64::MAX {
        KeeprError::Overflow
    } else if v.released {
        KeeprError::AlreadyReleased
    } else if v.amount_locked == 0 {
        KeeprError::NothingToRelease
    } else {
        KeeprError::InvalidUnlockTime
    }
}

/// Pays the whole locked balance out to the beneficiary once the grace
/// overrun has fully elapsed with no check-in. Authorization is purely
/// temporal — any caller may trigger the payout — and the returned event
/// carries the amount the host must move from custody to the beneficiary.
pub fn release(vault: &mut Vault, vault_key: Identity, now: i64) -> (r: Result<
    VaultReleased,
    KeeprError,
>)
    ensures
        r is Ok <==> can_release(*old(vault), now),
        r is Ok ==> *final(vault) == released_vault(*old(vault)),
        r is Ok ==> r->Ok_0 == (VaultReleased {
            vault: vault_key,
            amount: old(vault).amount_locked,
            to: old(vault).beneficiary,
        }),
        r is Err ==> *final(vault) == *old(vault) && r->Err_0 == release_err(*old(vault), now),
{
    if vault.unlock_unix > i64::MAX - vault.grace_period_seconds as i64 {
        return Err(KeeprError::Overflow);
    }
    let overrun_end = vault.unlock_unix + vault.grace_period_seconds as i64;
    if vault.released {
        return Err(KeeprError::AlreadyReleased);
    }
    if vault.amount_locked == 0 {
        return Err(KeeprError::NothingToRelease);
    }
    if now < overrun_end {
        return Err(KeeprError::InvalidUnlockTime);
    }
    let amount = vault.amount_locked;
    vault.released = true;
    vault.amount_locked = 0;
    Ok(VaultReleased { vault: vault_key, amount, to: vault.beneficiary })
}

/// The error a refused cancellation reports, in the order the checks are
/// made.
pub open spec fn cancel_err(v: Vault, now: i64) -> KeeprError {
    if v.released {
        KeeprError::CannotCancelAfterRelease
    } else if v.cancelled {
        KeeprError::VaultAlreadyCancelled
    } else if notification_start(v) < i64::MIN {
        KeeprError::Overflow
    } else if now >= notification_start(v) {
        KeeprError::CannotCancelDuringWatchdog
    } else {
        KeeprError::InsufficientBalanceForClosingFee
    }
}

/// Cancels a live vault before its notification window begins, refunding the
/// whole locked balance to the creator and charging the tier's closing fee to
/// the treasury. Cancellation inside the window is refused, so a creator
/// cannot escape an imminent release at the last second. `creator_balance` is
/// the creator's asset balance as the host read it at the start of the
/// operation; the fee is owed from it in full.
pub fn cancel_vault(
    vault: &mut Vault,
    vault_key: Identity,
    creator_balance: u64,
    now: i64,
) -> (r: Result<VaultCancelled, KeeprError>)
    ensures
        r is Ok <==> can_cancel(*old(vault), now, creator_balance),
        r is Ok ==> *final(vault) == cancelled_vault(*old(vault)),
        r is Ok ==> r->Ok_0 == (VaultCancelled {
            vault: vault_key,
            creator: old(vault).creator,
            amount_refunded: old(vault).amount_locked,
            closing_fee_paid: spec_closing_fee(old(vault).tier),
            in_grace_period: false,
        }),
        r is Err ==> *final(vault) == *old(vault) && r->Err_0 == cancel_err(*old(vault), now),
{
    if vault.released {
        return Err(KeeprError::CannotCancelAfterRelease);
    }
    if vault.cancelled {
        return Err(KeeprError::VaultAlreadyCancelled);
    }
    if vault.unlock_unix < i64::MIN + vault.notification_window_seconds as i64 {
        return Err(KeeprError::Overflow);
    }
    let window_start = vault.unlock_unix - vault.notification_window_seconds as i64;
    if now >= window_start {
        return Err(KeeprError::CannotCancelDuringWatchdog);
    }
    let fee = closing_fee(vault.tier);
    if fee > 0 && creator_balance < fee {
        return Err(KeeprError::InsufficientBalanceForClosingFee);
    }
    let refunded = vault.amount_locked;
    vault.cancelled = true;
    vault.amount_locked = 0;
    Ok(VaultCancelled {
        vault: vault_key,
        creator: vault.creator,
        amount_refunded: refunded,
        closing_fee_paid: fee,
        in_grace_period: false,
    })
}

/// Administrative repair for records written under a prior defect where a
/// release left `amount_locked` set. Accepted only for a released vault whose
/// custody account the host observed empty; it forces the recorded balance to
/// the zero the invariant asks for. The admin identity check is the host's.
pub fn fix_released_vault(vault: &mut Vault, vault_token_balance: u64) -> (r: Result<
    (),
    KeeprError,
>)
    ensures
        r is Ok <==> old(vault).released && vault_token_balance == 0,
        r is Ok ==> *final(vault) == (Vault { amount_locked: 0, ..*old(vault) }),
        r is Err ==> *final(vault) == *old(vault) && r->Err_0 == (if !old(vault).released {
            KeeprError::NotReleased
        } else {
            KeeprError::VaultNotEmpty
        }),
{
    if !vault.released {
        return Err(KeeprError::NotReleased);
    }
    if vault_token_balance != 0 {
        return Err(KeeprError::VaultNotEmpty);
    }
    vault.amount_locked = 0;
    Ok(())
}

/// Decides whether a vault record may be reclaimed: only after a release, and
/// only with nothing left in it. The economic outcome is already fixed, so any
/// caller may close it; the host then returns the record's storage to the
/// creator.
pub fn close_vault(vault: &Vault) -> (r: Result<(), KeeprError>)
    ensures
        r is Ok <==> vault.released && vault.amount_locked == 0,
        r is Err ==> r->Err_0 == (if !vault.released {
            KeeprError::NotReleased
        } else {
            KeeprError::VaultNotEmpty
        }),
{
    if !vault.released {
        return Err(KeeprError::NotReleased);
    }
    if vault.amount_locked != 0 {
        return Err(KeeprError::VaultNotEmpty);
    }
    Ok(())
}

} // verus!
