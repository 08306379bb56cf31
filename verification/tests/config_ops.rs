use keepr_vault::config::{
    init_config, is_admin_tester, update_admin_test_wallets, update_config, Config,
};
use keepr_vault::errors::KeeprError;
use keepr_vault::legacy::close_config;

fn id(b: u8) -> [u8; 32] {
    [b; 32]
}

#[test]
fn init_config_sets_fields() {
    let (config, event) = init_config(id(1), id(2), 500_000_000, false, id(3));
    assert_eq!(config.admin, id(1));
    assert_eq!(config.usdc_mint, id(2));
    assert_eq!(config.max_lock_per_vault, 500_000_000);
    assert!(!config.paused);
    assert!(config.admin_test_wallets.is_empty());
    assert_eq!(config.treasury, id(3));
    assert_eq!(event.admin, id(1));
}

#[test]
fn update_config_applies_only_supplied() {
    let (mut config, _) = init_config(id(1), id(2), 500_000_000, false, id(3));
    let event = update_config(&mut config, Some(id(9)), None, Some(true));
    assert_eq!(config.usdc_mint, id(9));
    assert_eq!(config.max_lock_per_vault, 500_000_000);
    assert!(config.paused);
    assert_eq!(config.admin, id(1));
    assert_eq!(config.treasury, id(3));
    assert_eq!(event.admin, id(1));
}

#[test]
fn update_config_without_fields_changes_nothing() {
    let (mut config, _) = init_config(id(1), id(2), 7, true, id(3));
    update_config(&mut config, None, None, None);
    assert_eq!(config.usdc_mint, id(2));
    assert_eq!(config.max_lock_per_vault, 7);
    assert!(config.paused);
}

#[test]
fn allowlist_accepts_ten_wallets() {
    let (mut config, _) = init_config(id(1), id(2), 7, false, id(3));
    let wallets: Vec<[u8; 32]> = (0..10).map(|i| id(i as u8 + 10)).collect();
    let r = update_admin_test_wallets(&mut config, wallets);
    assert!(r.is_ok());
    assert_eq!(config.admin_test_wallets.len(), 10);
    assert!(is_admin_tester(&config, &id(10)));
    assert!(is_admin_tester(&config, &id(19)));
    assert!(!is_admin_tester(&config, &id(20)));
}

#[test]
fn allowlist_rejects_eleven_wallets() {
    let (mut config, _) = init_config(id(1), id(2), 7, false, id(3));
    let wallets: Vec<[u8; 32]> = (0..11).map(|i| id(i as u8 + 10)).collect();
    let r = update_admin_test_wallets(&mut config, wallets);
    assert_eq!(r.unwrap_err(), KeeprError::AdminTestWalletsLimitExceeded);
    assert!(config.admin_test_wallets.is_empty());
}

#[test]
fn allowlist_replaces_wholesale() {
    let (mut config, _) = init_config(id(1), id(2), 7, false, id(3));
    update_admin_test_wallets(&mut config, vec![id(10), id(11)]).unwrap();
    update_admin_test_wallets(&mut config, vec![id(12)]).unwrap();
    assert!(!is_admin_tester(&config, &id(10)));
    assert!(is_admin_tester(&config, &id(12)));
}

fn legacy_record(admin: [u8; 32]) -> Vec<u8> {
    let mut data = vec![0u8; 8];
    data.extend_from_slice(&admin);
    data.extend_from_slice(&[7u8; 64]);
    data
}

#[test]
fn close_config_accepts_stored_admin() {
    let data = legacy_record(id(1));
    assert!(close_config(&data, id(1)).is_ok());
}

#[test]
fn close_config_rejects_wrong_admin() {
    let data = legacy_record(id(1));
    assert_eq!(close_config(&data, id(2)).unwrap_err(), KeeprError::InvalidAmount);
}

#[test]
fn close_config_rejects_short_record() {
    let data = vec![0u8; 39];
    assert_eq!(close_config(&data, id(1)).unwrap_err(), KeeprError::InvalidAmount);
}

#[test]
fn close_config_reads_exact_offset() {
    let mut data = legacy_record(id(1));
    data[7] = 0xFF;
    assert!(close_config(&data, id(1)).is_ok());
    data[8] = 0xFF;
    assert!(close_config(&data, id(1)).is_err());
}

#[test]
fn config_is_not_consulted_for_missing_wallet() {
    let config = Config {
        admin: id(1),
        usdc_mint: id(2),
        max_lock_per_vault: 7,
        paused: false,
        admin_test_wallets: Vec::new(),
        treasury: id(3),
    };
    assert!(!is_admin_tester(&config, &id(1)));
}
