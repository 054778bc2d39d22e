//! Delegated-authorization swap orchestration.
//!
//! A caller asks the orchestrator to swap (and, in one variant, deposit)
//! assets. The orchestrator validates the amount, demands the caller's proof
//! of intent, guards its time-limited configuration, takes custody where the
//! pattern calls for it, and — the core of the protocol — issues a scoped,
//! single-use authorization declaration naming the one downstream ledger
//! transfer the router is allowed to make on the caller's behalf. The router,
//! vault and asset ledger are opaque external services: every demand on them
//! is an explicit [`host::HostAction`] value handed to the host platform, and
//! each of their answers drives one verified transition of the operation's
//! state machine.

use vstd::prelude::*;

pub mod address;
pub mod auth;
pub mod error;
pub mod host;
pub mod storage;
pub mod swap_auth;
pub mod zap;

verus! {

use crate::error::Error;

/// Validates that the amount is non-negative.
///
/// Runs before any custody transfer or external call that depends on the
/// amount, so that a negative quantity never reaches arithmetic that assumes
/// non-negativity.
pub fn check_nonnegative_amount(amount: i128) -> (r: Result<(), Error>)
    ensures
        amount >= 0 ==> r == Ok::<(), Error>(()),
        amount < 0 ==> r == Err::<(), Error>(Error::NegativeAmount),
{
    if amount < 0 {
        Err(Error::NegativeAmount)
    } else {
        Ok(())
    }
}

} // verus!
