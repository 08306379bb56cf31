use vstd::prelude::*;

use crate::identity::Identity;

verus! {

/// The global config was created or changed.
#[derive(Clone, Copy, Debug)]
pub struct ConfigUpdated {
    pub admin: Identity,
}

/// A vault came into being with its first deadline.
#[derive(Clone, Copy, Debug)]
pub struct VaultCreated {
    pub creator: Identity,
    pub vault: Identity,
    pub beneficiary: Identity,
    pub unlock_unix: i64,
}

/// Funds entered a vault's custody account.
#[derive(Clone, Copy, Debug)]
pub struct VaultFunded {
    pub vault: Identity,
    pub amount: u64,
}

/// A vault's whole balance went out to the beneficiary.
#[derive(Clone, Copy, Debug)]
pub struct VaultReleased {
    pub vault: Identity,
    pub amount: u64,
    pub to: Identity,
}

/// The creator checked in and the deadline rolled forward.
#[derive(Clone, Copy, Debug)]
pub struct VaultCheckedIn {
    pub vault: Identity,
    pub creator: Identity,
    pub new_unlock_unix: i64,
}

/// A vault was cancelled: its balance went back to the creator and the
/// tier's closing fee went to the treasury.
#[derive(Clone, Copy, Debug)]
pub struct VaultCancelled {
    pub vault: Identity,
    pub creator: Identity,
    pub amount_refunded: u64,
    pub closing_fee_paid: u64,
    pub in_grace_period: bool,
}

} // verus!
