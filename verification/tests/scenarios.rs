use keepr_vault::config::{init_config, Config};
use keepr_vault::counter::VaultCounter;
use keepr_vault::errors::KeeprError;
use keepr_vault::lifecycle::{cancel_vault, check_in, create_vault, deposit_usdc, release};
use keepr_vault::vault::{Vault, VaultTier};

fn id(b: u8) -> [u8; 32] {
    [b; 32]
}

fn cfg() -> Config {
    let (config, _) = init_config(id(1), id(2), 500_000_000, false, id(3));
    config
}

fn dead_mans_vault(config: &Config, counter: &mut VaultCounter, now: i64) -> Vault {
    let (vault, _) = create_vault(
        config,
        counter,
        id(4),
        id(5),
        id(6),
        254,
        id(7),
        3600,
        id(8),
        600,
        300,
        VaultTier::Base,
        1_000_000,
        now,
    )
    .unwrap();
    vault
}

#[test]
fn checkin_extends_deadline_past_original_unlock() {
    let config = cfg();
    let mut counter = VaultCounter { last_id: 0 };
    // Created at 1000 with a 3600 s period: the first deadline is 4600.
    let mut vault = dead_mans_vault(&config, &mut counter, 1000);
    assert_eq!(vault.unlock_unix, 4600);
    deposit_usdc(&config, &mut vault, id(5), 1000, 100).unwrap();
    // Had no check-in happened, the deadline would block this deposit.
    let mut lapsed = vault;
    let r = deposit_usdc(&config, &mut lapsed, id(5), 4600, 100);
    assert_eq!(r.unwrap_err(), KeeprError::DepositAfterUnlock);
    // Checking in 500 s before the deadline rolls it to now + 3600.
    check_in(&mut vault, id(5), 4100).unwrap();
    assert_eq!(vault.unlock_unix, 7700);
    // The same deposit now lands inside the extended deadline.
    deposit_usdc(&config, &mut vault, id(5), 4600, 100).unwrap();
    assert_eq!(vault.amount_locked, 200);
}

#[test]
fn released_lifetime_pays_out_every_deposit() {
    let config = cfg();
    let mut counter = VaultCounter { last_id: 0 };
    let mut vault = dead_mans_vault(&config, &mut counter, 1000);
    deposit_usdc(&config, &mut vault, id(5), 1100, 100).unwrap();
    deposit_usdc(&config, &mut vault, id(5), 1200, 250).unwrap();
    deposit_usdc(&config, &mut vault, id(5), 1300, 1).unwrap();
    let event = release(&mut vault, id(5), 4900).unwrap();
    assert_eq!(event.amount, 351);
    assert_eq!(vault.amount_locked, 0);
}

#[test]
fn cancelled_lifetime_refunds_every_deposit() {
    let config = cfg();
    let mut counter = VaultCounter { last_id: 0 };
    let mut vault = dead_mans_vault(&config, &mut counter, 1000);
    deposit_usdc(&config, &mut vault, id(5), 1100, 400).unwrap();
    deposit_usdc(&config, &mut vault, id(5), 1200, 100).unwrap();
    let event = cancel_vault(&mut vault, id(5), 1_000_000, 2000).unwrap();
    assert_eq!(event.amount_refunded, 500);
    assert_eq!(vault.amount_locked, 0);
}

#[test]
fn terminal_flags_exclude_each_other() {
    let config = cfg();
    let mut counter = VaultCounter { last_id: 0 };

    let mut paid_out = dead_mans_vault(&config, &mut counter, 1000);
    deposit_usdc(&config, &mut paid_out, id(5), 1100, 10).unwrap();
    release(&mut paid_out, id(5), 4900).unwrap();
    assert!(paid_out.released && !paid_out.cancelled);
    assert_eq!(paid_out.amount_locked, 0);
    // The release latch never resets: cancellation is refused from here on.
    assert!(cancel_vault(&mut paid_out, id(5), 1_000_000, 5000).is_err());
    assert!(paid_out.released && !paid_out.cancelled);

    let mut refunded = dead_mans_vault(&config, &mut counter, 1000);
    deposit_usdc(&config, &mut refunded, id(5), 1100, 10).unwrap();
    cancel_vault(&mut refunded, id(5), 1_000_000, 2000).unwrap();
    assert!(refunded.cancelled && !refunded.released);
    assert_eq!(refunded.amount_locked, 0);
    // An empty cancelled vault can never be released.
    assert_eq!(release(&mut refunded, id(5), 4900).unwrap_err(), KeeprError::NothingToRelease);
    assert!(refunded.cancelled && !refunded.released);
}

#[test]
fn late_checkin_drifts_deadline() {
    let config = cfg();
    let mut counter = VaultCounter { last_id: 0 };
    let mut vault = dead_mans_vault(&config, &mut counter, 1000);
    // A check-in during the grace overrun still counts, and the new deadline
    // runs from the late moment itself, not from the missed deadline.
    check_in(&mut vault, id(5), 4750).unwrap();
    assert_eq!(vault.unlock_unix, 8350);
    assert_eq!(vault.last_checkin_unix, 4750);
}
