//! Time-to-live bookkeeping for the persisted configuration. The host ledger
//! archives instance state whose lifetime has run out, so every public
//! operation runs one reusable guard: fail distinctly when the state has
//! expired, extend its lifetime otherwise.

use vstd::prelude::*;

use crate::error::Error;

verus! {

/// Ledger entries in one day, at the chain's five-second cadence.
pub const DAY_IN_LEDGERS: u64 = 17280;

/// How far past the current ledger sequence an extension pushes the
/// configuration's lifetime.
pub const INSTANCE_BUMP_AMOUNT: u64 = 7 * DAY_IN_LEDGERS;

/// The remaining lifetime under which an access extends it; above the
/// threshold the lifetime is left as it stands.
pub const INSTANCE_LIFETIME_THRESHOLD: u64 = INSTANCE_BUMP_AMOUNT - DAY_IN_LEDGERS;

/// The lifetime bound right after an extension made at ledger sequence `now`.
pub open spec fn bumped_live_until(now: u64) -> u64 {
    if now + INSTANCE_BUMP_AMOUNT > u64::MAX {
        u64::MAX
    } else {
        (now + INSTANCE_BUMP_AMOUNT) as u64
    }
}

/// The time-to-live of the persisted instance configuration: the state is
/// readable while the current ledger sequence has not passed `live_until`.
#[derive(Clone, Copy, Debug, PartialEq, Eq, Structural)]
pub struct InstanceTtl {
    pub live_until: u64,
}

impl InstanceTtl {
    /// The lifetime of configuration freshly written at ledger sequence
    /// `now`.
    pub fn new(now: u64) -> (t: InstanceTtl)
        ensures
            t.live_until == bumped_live_until(now),
    {
        InstanceTtl {
            live_until: if now > u64::MAX - INSTANCE_BUMP_AMOUNT {
                u64::MAX
            } else {
                now + INSTANCE_BUMP_AMOUNT
            },
        }
    }

    /// Whether the persisted state is still readable at ledger sequence
    /// `now`.
    pub open spec fn is_live(self, now: u64) -> bool {
        now <= self.live_until
    }

    /// The lifetime bound after the guard runs at sequence `now` on live
    /// state: pushed out when little lifetime remains, untouched otherwise.
    pub open spec fn extended_live_until(self, now: u64) -> u64 {
        if self.live_until - now < INSTANCE_LIFETIME_THRESHOLD {
            bumped_live_until(now)
        } else {
            self.live_until
        }
    }

    /// The single reusable guard on the persisted configuration: fail with
    /// the distinct `ConfigUnavailable` condition when the state has expired,
    /// and otherwise extend its lifetime so that steady use keeps the
    /// configuration alive.
    pub fn extend_instance_ttl(&mut self, now: u64) -> (r: Result<(), Error>)
        ensures
            old(self).is_live(now) ==> r == Ok::<(), Error>(()) && final(self).live_until
                == old(self).extended_live_until(now),
            !old(self).is_live(now) ==> r == Err::<(), Error>(Error::ConfigUnavailable)
                && *final(self) == *old(self),
    {
        if now > self.live_until {
            Err(Error::ConfigUnavailable)
        } else {
            if self.live_until - now < INSTANCE_LIFETIME_THRESHOLD {
                self.live_until = if now > u64::MAX - INSTANCE_BUMP_AMOUNT {
                    u64::MAX
                } else {
                    now + INSTANCE_BUMP_AMOUNT
                };
            }
            Ok(())
        }
    }
}

} // verus!
