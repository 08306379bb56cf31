use vstd::prelude::*;

use crate::counter::{counter_advance, VaultCounter};
use crate::errors::KeeprError;
use crate::lifecycle::release_err;
use crate::vault::{
    can_cancel, can_check_in, can_deposit, can_release, cancelled_vault, checked_in, deposited,
    flags_wf, grace_end, notification_start, released_vault, spec_closing_fee, windows_wf, Vault,
};

verus! {

/// One successful transition of a single vault, as the operations report it:
/// each carries the clock reading it was made under and the amounts that
/// moved. A `Released` or `Cancelled` event names the amount that left the
/// custody account; a `Cancelled` event also names the fee and the creator
/// balance it was checked against.
pub enum VaultEvent {
    Deposited { now: i64, amount: u64 },
    CheckedIn { now: i64 },
    Released { now: i64, amount: u64 },
    Cancelled { now: i64, creator_balance: u64, refund: u64, fee: u64 },
}

/// The vault after `e`, or `None` where the operation would have refused the
/// event: the guard is the operation's own acceptance condition, and the
/// amounts carried by the event must be the ones the operation pays.
pub open spec fn apply_event(cap: u64, v: Vault, e: VaultEvent) -> Option<Vault> {
    match e {
        VaultEvent::Deposited { now, amount } => if can_deposit(v, cap, now, amount) {
            Some(deposited(v, amount))
        } else {
            None
        },
        VaultEvent::CheckedIn { now } => if can_check_in(v, now) {
            Some(checked_in(v, now))
        } else {
            None
        },
        VaultEvent::Released { now, amount } => if can_release(v, now) && amount
            == v.amount_locked {
            Some(released_vault(v))
        } else {
            None
        },
        VaultEvent::Cancelled { now, creator_balance, refund, fee } => if can_cancel(
            v,
            now,
            creator_balance,
        ) && refund == v.amount_locked && fee == spec_closing_fee(v.tier) {
            Some(cancelled_vault(v))
        } else {
            None
        },
    }
}

/// The vault after the whole event sequence, or `None` where any step was
/// refused.
pub open spec fn run(cap: u64, v: Vault, evs: Seq<VaultEvent>) -> Option<Vault>
    decreases evs.len(),
{
    if evs.len() == 0 {
        Some(v)
    } else {
        match run(cap, v, evs.drop_last()) {
            Some(m) => apply_event(cap, m, evs.last()),
            None => None,
        }
    }
}

/// Everything the creator paid into the vault over the events.
pub open spec fn deposits_sum(evs: Seq<VaultEvent>) -> int
    decreases evs.len(),
{
    if evs.len() == 0 {
        0
    } else {
        deposits_sum(evs.drop_last()) + (match evs.last() {
            VaultEvent::Deposited { amount, .. } => amount as int,
            _ => 0,
        })
    }
}

/// Everything that left the custody account over the events: the payout of a
/// release or the refund of a cancellation. The closing fee is not counted
/// here; it is owed from the creator's own balance, never from the vault.
pub open spec fn outflow_sum(evs: Seq<VaultEvent>) -> int
    decreases evs.len(),
{
    if evs.len() == 0 {
        0
    } else {
        outflow_sum(evs.drop_last()) + (match evs.last() {
            VaultEvent::Released { amount, .. } => amount as int,
            VaultEvent::Cancelled { refund, .. } => refund as int,
            _ => 0,
        })
    }
}

/// Law: over every accepted event sequence, the two terminal flags never hold
/// together, a vault in a terminal state holds no funds, and each flag is a
/// one-way latch.
pub proof fn lemma_latch_exclusivity(cap: u64, v0: Vault, evs: Seq<VaultEvent>, v: Vault)
    requires
        flags_wf(v0),
        run(cap, v0, evs) == Some(v),
    ensures
        flags_wf(v),
        v0.released ==> v.released,
        v0.cancelled ==> v.cancelled,
    decreases evs.len(),
{
    if evs.len() > 0 {
        let prefix = evs.drop_last();
        match run(cap, v0, prefix) {
            Some(mid) => {
                lemma_latch_exclusivity(cap, v0, prefix, mid);
            },
            None => {
                assert(false);
            },
        }
    }
}

/// Law: the configured windows are never rewritten, and the locked balance
/// never outgrows the per-vault cap, over every accepted event sequence.
pub proof fn lemma_record_bounds_hold(cap: u64, v0: Vault, evs: Seq<VaultEvent>, v: Vault)
    requires
        windows_wf(v0),
        v0.amount_locked <= cap,
        run(cap, v0, evs) == Some(v),
    ensures
        windows_wf(v),
        v.amount_locked <= cap,
        v.checkin_period_seconds == v0.checkin_period_seconds,
        v.notification_window_seconds == v0.notification_window_seconds,
        v.grace_period_seconds == v0.grace_period_seconds,
    decreases evs.len(),
{
    if evs.len() > 0 {
        let prefix = evs.drop_last();
        match run(cap, v0, prefix) {
            Some(mid) => {
                lemma_record_bounds_hold(cap, v0, prefix, mid);
            },
            None => {
                assert(false);
            },
        }
    }
}

/// Law: the recorded balance is exactly what went in minus what went out, over
/// every accepted event sequence. No step loses or creates funds.
pub proof fn lemma_balance_conservation(cap: u64, v0: Vault, evs: Seq<VaultEvent>, v: Vault)
    requires
        run(cap, v0, evs) == Some(v),
    ensures
        v.amount_locked == v0.amount_locked + deposits_sum(evs) - outflow_sum(evs),
    decreases evs.len(),
{
    if evs.len() > 0 {
        let prefix = evs.drop_last();
        match run(cap, v0, prefix) {
            Some(mid) => {
                lemma_balance_conservation(cap, v0, prefix, mid);
            },
            None => {
                assert(false);
            },
        }
    }
}

/// Law: a vault that starts empty and reaches a terminal state has paid out or
/// refunded exactly the deposits it ever took in.
pub proof fn lemma_lifetime_net_flow_zero(cap: u64, v0: Vault, evs: Seq<VaultEvent>, v: Vault)
    requires
        flags_wf(v0),
        v0.amount_locked == 0,
        run(cap, v0, evs) == Some(v),
        v.released || v.cancelled,
    ensures
        deposits_sum(evs) == outflow_sum(evs),
{
    lemma_latch_exclusivity(cap, v0, evs, v);
    lemma_balance_conservation(cap, v0, evs, v);
}

/// Law: the notification window opens on the second. A live vault with well
/// formed windows accepts a check-in at exactly the window-opening instant —
/// whenever the instant and the rolled deadline fit in a timestamp — and the
/// deadline then runs one whole check-in period from that instant.
pub proof fn lemma_checkin_accepted_at_window_open(v: Vault, now: i64)
    requires
        !v.released,
        !v.cancelled,
        windows_wf(v),
        i64::MIN <= notification_start(v),
        now == notification_start(v),
        now as int + v.checkin_period_seconds as int <= i64::MAX,
        grace_end(v) <= i64::MAX,
    ensures
        can_check_in(v, now),
        checked_in(v, now).unlock_unix == now as int + v.checkin_period_seconds as int,
        checked_in(v, now).last_checkin_unix == now,
{
}

/// Law: release waits out the whole grace overrun. Up to and including one
/// second before the overrun ends, a release of a live funded vault is
/// refused, and with the temporal error, not a state conflict.
pub proof fn lemma_release_refused_before_grace_end(v: Vault, now: i64)
    requires
        !v.released,
        v.amount_locked > 0,
        grace_end(v) <= i64::MAX,
        now < grace_end(v),
    ensures
        !can_release(v, now),
        release_err(v, now) == KeeprError::InvalidUnlockTime,
{
}

/// Law: a release never lands on a cancelled vault. Under the latch
/// invariant an accepted release finds the cancellation latch clear and
/// leaves it clear, so its result keeps the two terminal flags exclusive.
pub proof fn lemma_release_keeps_latches_exclusive(v: Vault, now: i64)
    requires
        flags_wf(v),
        can_release(v, now),
    ensures
        !v.cancelled,
        released_vault(v).released,
        !released_vault(v).cancelled,
        released_vault(v).amount_locked == 0,
        flags_wf(released_vault(v)),
{
}

/// Law: a cancelled vault can never become released. Under the latch
/// invariant it holds nothing, so every release attempt on it is refused for
/// want of funds and the vault stands unchanged.
pub proof fn lemma_release_refused_on_cancelled(v: Vault, now: i64)
    requires
        flags_wf(v),
        v.cancelled,
        !v.released,
        grace_end(v) <= i64::MAX,
    ensures
        !can_release(v, now),
        release_err(v, now) == KeeprError::NothingToRelease,
{
}

/// Law: a release is final. Once a vault has released, an attempt at any
/// later (or earlier) moment is refused as a state conflict and nothing is
/// paid a second time.
pub proof fn lemma_release_twice_refused(v: Vault, now1: i64, now2: i64)
    requires
        can_release(v, now1),
    ensures
        !can_release(released_vault(v), now2),
        release_err(released_vault(v), now2) == KeeprError::AlreadyReleased,
{
}

/// Law: a check-in holds the funds back. After a check-in at `now`, no
/// release is authorized before a whole further check-in period and grace
/// period have passed.
pub proof fn lemma_checkin_postpones_release(v: Vault, now: i64, later: i64)
    requires
        can_check_in(v, now),
        later < now as int + v.checkin_period_seconds as int + v.grace_period_seconds as int,
    ensures
        !can_release(checked_in(v, now), later),
{
}

/// Law: vault ids issued against one creator's counter are consecutive —
/// each is its predecessor plus one — and therefore strictly increasing with
/// no gaps and no reuse. `ids[i]` is the id issued by the `i`-th successful
/// creation and `cs[i]` the counter it left behind.
pub proof fn lemma_vault_ids_consecutive(c0: VaultCounter, ids: Seq<u64>, cs: Seq<VaultCounter>)
    requires
        cs.len() == ids.len(),
        forall|i: int|
            0 <= i < ids.len() ==> counter_advance(
                if i == 0 {
                    c0
                } else {
                    cs[i - 1]
                },
                ids[i],
                cs[i],
            ),
    ensures
        forall|i: int| 0 <= i < ids.len() ==> ids[i] == c0.last_id + i + 1,
        forall|i: int| 0 <= i < ids.len() ==> cs[i].last_id == c0.last_id + i + 1,
        forall|i: int, j: int| 0 <= i < j < ids.len() ==> ids[i] < ids[j],
    decreases ids.len(),
{
    if ids.len() > 0 {
        let n: int = ids.len() - 1;
        assert forall|i: int|
            0 <= i < n implies counter_advance(
            if i == 0 {
                c0
            } else {
                cs.drop_last()[i - 1]
            },
            ids.drop_last()[i],
            cs.drop_last()[i],
        ) by {
            assert(ids.drop_last()[i] == ids[i]);
            assert(cs.drop_last()[i] == cs[i]);
            if i > 0 {
                assert(cs.drop_last()[i - 1] == cs[i - 1]);
            }
            assert(counter_advance(
                if i == 0 {
                    c0
                } else {
                    cs[i - 1]
                },
                ids[i],
                cs[i],
            ));
        }
        lemma_vault_ids_consecutive(c0, ids.drop_last(), cs.drop_last());
        assert(counter_advance(
            if n == 0 {
                c0
            } else {
                cs[n - 1]
            },
            ids[n],
            cs[n],
        ));
        if n > 0 {
            assert(cs.drop_last()[n - 1] == cs[n - 1]);
        }
        assert forall|i: int| 0 <= i < ids.len() implies ids[i] == c0.last_id + i + 1 by {
            if i < n {
                assert(ids.drop_last()[i] == ids[i]);
            }
        }
        assert forall|i: int| 0 <= i < ids.len() implies cs[i].last_id == c0.last_id + i + 1 by {
            if i < n {
                assert(cs.drop_last()[i] == cs[i]);
            }
        }
    }
}

} // verus!
