use vstd::prelude::*;

use crate::errors::KeeprError;
use crate::events::ConfigUpdated;
use crate::identity::{ids_have, Identity};

verus! {

/// Most identities the admin may place on the test allowlist.
pub const MAX_ADMIN_TEST_WALLETS: usize = 10;

/// The global administrative record: a singleton owned by the admin. It names
/// the accepted asset, caps what one vault may hold, can pause vault creation,
/// and lists up to ten test identities exempt from the beneficiary check.
#[derive(Clone)]
pub struct Config {
    pub admin: Identity,
    pub usdc_mint: Identity,
    pub max_lock_per_vault: u64,
    pub paused: bool,
    pub admin_test_wallets: Vec<Identity>,
    pub treasury: Identity,
}

/// The allowlist never outgrows its cap of ten entries.
pub open spec fn config_wf(c: Config) -> bool {
    c.admin_test_wallets@.len() <= MAX_ADMIN_TEST_WALLETS
}

/// Builds the one-time global config. The host refuses a second
/// initialization; this constructor itself cannot fail.
pub fn init_config(
    admin: Identity,
    usdc_mint: Identity,
    max_lock_per_vault: u64,
    paused: bool,
    treasury: Identity,
) -> (r: (Config, ConfigUpdated))
    ensures
        r.0.admin@ == admin@,
        r.0.usdc_mint@ == usdc_mint@,
        r.0.max_lock_per_vault == max_lock_per_vault,
        r.0.paused == paused,
        r.0.admin_test_wallets@ == Seq::<Identity>::empty(),
        r.0.treasury@ == treasury@,
        config_wf(r.0),
        r.1.admin@ == admin@,
{
    let config = Config {
        admin,
        usdc_mint,
        max_lock_per_vault,
        paused,
        admin_test_wallets: Vec::new(),
        treasury,
    };
    let event = ConfigUpdated { admin: config.admin };
    (config, event)
}

/// Applies the supplied fields to the config and leaves the rest alone.
/// That the caller is the stored admin is the host's check, made before any
/// record is handed to this function.
pub fn update_config(
    config: &mut Config,
    usdc_mint: Option<Identity>,
    max_lock_per_vault: Option<u64>,
    paused: Option<bool>,
) -> (ev: ConfigUpdated)
    ensures
        final(config).usdc_mint == (match usdc_mint {
            Some(m) => m,
            None => old(config).usdc_mint,
        }),
        final(config).max_lock_per_vault == (match max_lock_per_vault {
            Some(cap) => cap,
            None => old(config).max_lock_per_vault,
        }),
        final(config).paused == (match paused {
            Some(p) => p,
            None => old(config).paused,
        }),
        final(config).admin == old(config).admin,
        final(config).admin_test_wallets == old(config).admin_test_wallets,
        final(config).treasury == old(config).treasury,
        config_wf(*old(config)) ==> config_wf(*final(config)),
        ev.admin == old(config).admin,
{
    if let Some(mint) = usdc_mint {
        config.usdc_mint = mint;
    }
    if let Some(cap) = max_lock_per_vault {
        config.max_lock_per_vault = cap;
    }
    if let Some(p) = paused {
        config.paused = p;
    }
    ConfigUpdated { admin: config.admin }
}

/// Replaces the test allowlist wholesale; a list of more than ten entries is
/// refused and the config is left unchanged.
pub fn update_admin_test_wallets(config: &mut Config, wallets: Vec<Identity>) -> (r: Result<
    ConfigUpdated,
    KeeprError,
>)
    ensures
        r is Ok <==> wallets@.len() <= MAX_ADMIN_TEST_WALLETS,
        r is Ok ==> final(config).admin_test_wallets@ == wallets@,
        r is Ok ==> r->Ok_0.admin == old(config).admin,
        r is Err ==> *final(config) == *old(config) && r->Err_0
            == KeeprError::AdminTestWalletsLimitExceeded,
        final(config).admin == old(config).admin,
        final(config).usdc_mint == old(config).usdc_mint,
        final(config).max_lock_per_vault == old(config).max_lock_per_vault,
        final(config).paused == old(config).paused,
        final(config).treasury == old(config).treasury,
        r is Ok ==> config_wf(*final(config)),
{
    if wallets.len() > MAX_ADMIN_TEST_WALLETS {
        return Err(KeeprError::AdminTestWalletsLimitExceeded);
    }
    config.admin_test_wallets = wallets;
    Ok(ConfigUpdated { admin: config.admin })
}

/// Whether `key` is one of the admin's test identities. Such a creator may
/// name itself as beneficiary.
pub fn is_admin_tester(config: &Config, key: &Identity) -> (r: bool)
    ensures
        r == ids_have(config.admin_test_wallets@, *key),
{
    crate::identity::ids_contains(&config.admin_test_wallets, key)
}

} // verus!
