use vstd::prelude::*;

verus! {

/// Every way a public operation of the orchestrator can fail.
///
/// Each failure aborts the whole operation with no durable state change of the
/// orchestrator's own; nothing is retried internally.
#[derive(Clone, Copy, Debug, PartialEq, Eq, Structural)]
pub enum Error {
    /// The request named a negative amount.
    NegativeAmount,
    /// The caller supplied no valid proof of intent for this invocation.
    AuthenticationFailed,
    /// A delegated declaration did not match the downstream call it was
    /// checked against, or a nested sub-call lacked a needed declaration.
    AuthorizationRejected,
    /// The router, vault or asset ledger reported a failure.
    ExternalCallFailed,
    /// The persisted configuration's time-to-live has expired, so the
    /// configuration is unreadable. Distinct from every input error: expired
    /// state is never mistaken for an empty or default address.
    ConfigUnavailable,
}

} // verus!
