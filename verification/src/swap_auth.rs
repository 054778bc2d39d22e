//! The custody-taking swap variant: the orchestrator pulls the input tokens
//! into its own custody, declares a delegated grant for the one transfer the
//! router will make on the caller's behalf, and then invokes the router's
//! exact-input swap. Each operation is a small state machine: the orchestrator
//! decides, the host performs, and every transition is pinned by a spec
//! relation.

use vstd::prelude::*;

use crate::address::Address;
use crate::auth::{build_transfer_authorization, is_transfer_authorization};
use crate::auth::AuthEntry;
use crate::check_nonnegative_amount;
use crate::error::Error;
use crate::host::{HostAction, RouterSwapCall};
use crate::storage::{bumped_live_until, InstanceTtl};

verus! {

/// The inputs of one swap operation, fixed at entry.
#[derive(Clone, Copy, Debug, PartialEq, Eq, Structural)]
pub struct SwapRequest {
    /// The principal on whose behalf the swap runs; must prove intent.
    pub caller: Address,
    /// The asset being sold.
    pub token_in: Address,
    /// The asset being bought.
    pub token_out: Address,
    /// How much of `token_in` to swap.
    pub amount: i128,
    /// The minimum acceptable output amount.
    pub amount_out_min: i128,
    /// The latest ledger time at which the swap may still execute.
    pub deadline: u64,
}

/// Where one swap operation stands.
#[derive(Clone, Copy, Debug, PartialEq, Eq, Structural)]
pub enum SwapPhase {
    /// Amount accepted; waiting for the caller's proof of intent.
    Validating,
    /// Caller authenticated and configuration guarded; waiting for the
    /// custody pull.
    Authenticated { router: Address },
    /// Input tokens in the orchestrator's custody; waiting for the pair
    /// lookup.
    CustodyTaken { router: Address },
    /// The delegated grant covering the pair transfer is declared; the router
    /// call it covers may now be made.
    DelegationGranted { router: Address, pair: Address },
    /// The router call is in flight.
    CallInFlight,
    /// The operation finished; `amount_out` is the realized output amount.
    Completed { amount_out: i128 },
    /// The operation failed; nothing further happens.
    Aborted { error: Error },
}

/// The orchestrator of the custody-taking swap variant. Its router address is
/// fixed at construction and immutable thereafter: no update operation
/// exists.
#[derive(Clone, Copy, Debug, PartialEq, Eq, Structural)]
pub struct SoroswapAuth {
    /// The orchestrator's own address on the ledger.
    pub contract_address: Address,
    /// The external router executing the swaps.
    pub router_address: Address,
    /// Lifetime of the persisted configuration.
    pub ttl: InstanceTtl,
}

/// One in-flight swap operation.
#[derive(Clone, Copy, Debug, PartialEq, Eq, Structural)]
pub struct SwapOperation {
    pub request: SwapRequest,
    /// The orchestrator's own address: where pulled custody goes.
    pub self_address: Address,
    pub phase: SwapPhase,
}

/// How a swap operation begins: a negative amount aborts with
/// `NegativeAmount` before anything at all is asked of the host; otherwise
/// the host is asked for the caller's proof of intent, and nothing else.
pub open spec fn swap_starts(
    contract: SoroswapAuth,
    req: SwapRequest,
    m: SwapOperation,
    a: HostAction,
) -> bool {
    &&& m.request == req
    &&& m.self_address == contract.contract_address
    &&& if req.amount < 0 {
        m.phase == (SwapPhase::Aborted { error: Error::NegativeAmount }) && a is Halt
    } else {
        m.phase == SwapPhase::Validating && a == (HostAction::Authenticate {
            principal: req.caller,
        })
    }
}

/// The authentication step: a missing proof of intent aborts with
/// `AuthenticationFailed` before any custody moves; expired configuration
/// aborts with the distinct `ConfigUnavailable`; otherwise the
/// configuration's lifetime is extended and the host is asked to pull the
/// input tokens into the orchestrator's custody.
pub open spec fn swap_authenticates(
    pre: SwapOperation,
    cpre: SoroswapAuth,
    authenticated: bool,
    now: u64,
    post: SwapOperation,
    cpost: SoroswapAuth,
    a: HostAction,
) -> bool {
    &&& pre.phase == SwapPhase::Validating
    &&& post.request == pre.request
    &&& post.self_address == pre.self_address
    &&& cpost.contract_address == cpre.contract_address
    &&& cpost.router_address == cpre.router_address
    &&& if !authenticated {
        &&& post.phase == (SwapPhase::Aborted { error: Error::AuthenticationFailed })
        &&& a is Halt
        &&& cpost.ttl == cpre.ttl
    } else if !cpre.ttl.is_live(now) {
        &&& post.phase == (SwapPhase::Aborted { error: Error::ConfigUnavailable })
        &&& a is Halt
        &&& cpost.ttl == cpre.ttl
    } else {
        &&& cpost.ttl.live_until == cpre.ttl.extended_live_until(now)
        &&& post.phase == (SwapPhase::Authenticated { router: cpre.router_address })
        &&& a == (HostAction::TransferAsset {
            asset: pre.request.token_in,
            from: pre.request.caller,
            to: pre.self_address,
            amount: pre.request.amount,
        })
    }
}

/// The custody step: a failed pull — insufficient balance or allowance,
/// signaled by the asset ledger — aborts with `ExternalCallFailed`; a
/// successful one leads to the pair lookup.
pub open spec fn swap_takes_custody(
    pre: SwapOperation,
    transferred: bool,
    post: SwapOperation,
    a: HostAction,
) -> bool {
    &&& pre.phase matches SwapPhase::Authenticated { router }
    &&& post.request == pre.request
    &&& post.self_address == pre.self_address
    &&& if !transferred {
        &&& post.phase == (SwapPhase::Aborted { error: Error::ExternalCallFailed })
        &&& a is Halt
    } else {
        &&& post.phase == (SwapPhase::CustodyTaken { router })
        &&& a == (HostAction::QueryPair {
            router,
            token_a: pre.request.token_in,
            token_b: pre.request.token_out,
        })
    }
}

/// The delegation step: with the pair in hand, the orchestrator — itself
/// already authorized by the caller — declares the single-use grant covering
/// exactly the transfer of `amount` of the input asset from the caller to the
/// pair, with no nested grants, and asks the host to declare it. A missing
/// pair aborts with `ExternalCallFailed` and nothing is declared.
pub open spec fn swap_grants_delegation(
    pre: SwapOperation,
    pair: Option<Address>,
    post: SwapOperation,
    a: HostAction,
) -> bool {
    &&& pre.phase matches SwapPhase::CustodyTaken { router }
    &&& post.request == pre.request
    &&& post.self_address == pre.self_address
    &&& match pair {
        None => {
            &&& post.phase == (SwapPhase::Aborted { error: Error::ExternalCallFailed })
            &&& a is Halt
        },
        Some(p) => {
            &&& post.phase == (SwapPhase::DelegationGranted { router, pair: p })
            &&& a matches HostAction::Authorize { declarations }
            &&& declarations@.len() == 1
            &&& is_transfer_authorization(
                declarations@[0],
                pre.request.token_in,
                pre.request.caller,
                p,
                pre.request.amount,
            )
        },
    }
}

/// The invocation step: the grant is declared, so the orchestrator asks the
/// host to make the one router call the grant covers — the exact input
/// amount, the two-hop path, the caller as recipient, and the request's
/// slippage floor and deadline.
pub open spec fn swap_calls_router(pre: SwapOperation, post: SwapOperation, a: HostAction) -> bool {
    &&& pre.phase matches SwapPhase::DelegationGranted { router, pair }
    &&& post.request == pre.request
    &&& post.self_address == pre.self_address
    &&& post.phase == SwapPhase::CallInFlight
    &&& a matches HostAction::CallRouterSwap { swap_call }
    &&& swap_call.router == router
    &&& swap_call.amount_in == pre.request.amount
    &&& swap_call.amount_out_min == pre.request.amount_out_min
    &&& swap_call.path@ == seq![pre.request.token_in, pre.request.token_out]
    &&& swap_call.to == pre.request.caller
    &&& swap_call.deadline == pre.request.deadline
}

/// How the operation ends: a router failure — no pair, insufficient
/// liquidity, deadline exceeded, floor not met, or an empty report — aborts
/// with `ExternalCallFailed`; otherwise the last amount along the path is the
/// realized output.
pub open spec fn swap_completes(
    pre: SwapOperation,
    amounts: Option<Vec<i128>>,
    post: SwapOperation,
    a: HostAction,
) -> bool {
    &&& pre.phase == SwapPhase::CallInFlight
    &&& post.request == pre.request
    &&& post.self_address == pre.self_address
    &&& a is Halt
    &&& match amounts {
        None => post.phase == (SwapPhase::Aborted { error: Error::ExternalCallFailed }),
        Some(v) => if v@.len() == 0 {
            post.phase == (SwapPhase::Aborted { error: Error::ExternalCallFailed })
        } else {
            post.phase == (SwapPhase::Completed { amount_out: v@[v@.len() - 1] })
        },
    }
}

impl SoroswapAuth {
    /// Create the orchestrator at ledger sequence `now`, fixing its own
    /// address and the router's for the contract's lifetime.
    pub fn __constructor(contract_address: Address, router_address: Address, now: u64) -> (c:
        SoroswapAuth)
        ensures
            c.contract_address == contract_address,
            c.router_address == router_address,
            c.ttl.live_until == bumped_live_until(now),
    {
        SoroswapAuth { contract_address, router_address, ttl: InstanceTtl::new(now) }
    }

    /// Begin swapping `amount` of `token_in` for `token_out` on behalf of
    /// `caller`, with slippage and staleness protection disabled: a zero
    /// output floor and the maximum deadline. Use
    /// [`Self::swap_with_protection`] to set real bounds.
    pub fn swap(&self, caller: Address, token_in: Address, token_out: Address, amount: i128) -> (r:
        (SwapOperation, HostAction))
        ensures
            swap_starts(
                *self,
                (SwapRequest {
                    caller,
                    token_in,
                    token_out,
                    amount,
                    amount_out_min: 0,
                    deadline: u64::MAX,
                }),
                r.0,
                r.1,
            ),
    {
        self.swap_with_protection(caller, token_in, token_out, amount, 0, u64::MAX)
    }

    /// Begin a swap with an explicit minimum-output floor and deadline.
    pub fn swap_with_protection(
        &self,
        caller: Address,
        token_in: Address,
        token_out: Address,
        amount: i128,
        amount_out_min: i128,
        deadline: u64,
    ) -> (r: (SwapOperation, HostAction))
        ensures
            swap_starts(
                *self,
                (SwapRequest { caller, token_in, token_out, amount, amount_out_min, deadline }),
                r.0,
                r.1,
            ),
    {
        let request = SwapRequest { caller, token_in, token_out, amount, amount_out_min, deadline };
        match check_nonnegative_amount(amount) {
            Err(error) => (
                SwapOperation {
                    request,
                    self_address: self.contract_address,
                    phase: SwapPhase::Aborted { error },
                },
                HostAction::Halt,
            ),
            Ok(()) => (
                SwapOperation {
                    request,
                    self_address: self.contract_address,
                    phase: SwapPhase::Validating,
                },
                HostAction::Authenticate { principal: caller },
            ),
        }
    }
}

impl SwapOperation {
    /// Record whether the caller proved intent; on success, guard the
    /// configuration's lifetime and demand the custody pull.
    pub fn on_authenticated(
        &mut self,
        contract: &mut SoroswapAuth,
        authenticated: bool,
        now: u64,
    ) -> (a: HostAction)
        requires
            old(self).phase == SwapPhase::Validating,
        ensures
            swap_authenticates(
                *old(self),
                *old(contract),
                authenticated,
                now,
                *final(self),
                *final(contract),
                a,
            ),
    {
        if !authenticated {
            self.phase = SwapPhase::Aborted { error: Error::AuthenticationFailed };
            HostAction::Halt
        } else {
            match contract.ttl.extend_instance_ttl(now) {
                Err(error) => {
                    self.phase = SwapPhase::Aborted { error };
                    HostAction::Halt
                },
                Ok(()) => {
                    self.phase = SwapPhase::Authenticated { router: contract.router_address };
                    HostAction::TransferAsset {
                        asset: self.request.token_in,
                        from: self.request.caller,
                        to: self.self_address,
                        amount: self.request.amount,
                    }
                },
            }
        }
    }

    /// Record the outcome of the custody pull; on success, demand the pair
    /// lookup.
    pub fn on_custody_result(&mut self, transferred: bool) -> (a: HostAction)
        requires
            old(self).phase matches SwapPhase::Authenticated { .. },
        ensures
            swap_takes_custody(*old(self), transferred, *final(self), a),
    {
        if !transferred {
            self.phase = SwapPhase::Aborted { error: Error::ExternalCallFailed };
            HostAction::Halt
        } else {
            match self.phase {
                SwapPhase::Authenticated { router } => {
                    self.phase = SwapPhase::CustodyTaken { router };
                    HostAction::QueryPair {
                        router,
                        token_a: self.request.token_in,
                        token_b: self.request.token_out,
                    }
                },
                _ => unreached(),
            }
        }
    }

    /// Record the router's answer to the pair lookup; with a pair in hand,
    /// build and declare the delegated grant for the one covered transfer.
    pub fn on_pair_result(&mut self, pair: Option<Address>) -> (a: HostAction)
        requires
            old(self).phase matches SwapPhase::CustodyTaken { .. },
        ensures
            swap_grants_delegation(*old(self), pair, *final(self), a),
    {
        match pair {
            None => {
                self.phase = SwapPhase::Aborted { error: Error::ExternalCallFailed };
                HostAction::Halt
            },
            Some(p) => {
                match self.phase {
                    SwapPhase::CustodyTaken { router } => {
                        let entry = build_transfer_authorization(
                            self.request.token_in,
                            self.request.caller,
                            p,
                            self.request.amount,
                        );
                        let mut declarations: Vec<AuthEntry> = Vec::new();
                        declarations.push(entry);
                        self.phase = SwapPhase::DelegationGranted { router, pair: p };
                        HostAction::Authorize { declarations }
                    },
                    _ => unreached(),
                }
            },
        }
    }

    /// The grant is declared: demand the one router call it covers.
    pub fn on_authorized(&mut self) -> (a: HostAction)
        requires
            old(self).phase matches SwapPhase::DelegationGranted { .. },
        ensures
            swap_calls_router(*old(self), *final(self), a),
    {
        match self.phase {
            SwapPhase::DelegationGranted { router, pair: _ } => {
                let mut path: Vec<Address> = Vec::new();
                path.push(self.request.token_in);
                path.push(self.request.token_out);
                proof {
                    assert(path@ =~= seq![self.request.token_in, self.request.token_out]);
                }
                self.phase = SwapPhase::CallInFlight;
                HostAction::CallRouterSwap {
                    swap_call: RouterSwapCall {
                        router,
                        amount_in: self.request.amount,
                        amount_out_min: self.request.amount_out_min,
                        path,
                        to: self.request.caller,
                        deadline: self.request.deadline,
                    },
                }
            },
            _ => unreached(),
        }
    }

    /// Record the router's report: the sequence of amounts along the path,
    /// or a failure.
    pub fn on_swap_result(&mut self, amounts: Option<Vec<i128>>) -> (a: HostAction)
        requires
            old(self).phase == SwapPhase::CallInFlight,
        ensures
            swap_completes(*old(self), amounts, *final(self), a),
    {
        match amounts {
            None => {
                self.phase = SwapPhase::Aborted { error: Error::ExternalCallFailed };
            },
            Some(v) => {
                if v.len() == 0 {
                    self.phase = SwapPhase::Aborted { error: Error::ExternalCallFailed };
                } else {
                    let amount_out: i128 = v[v.len() - 1];
                    self.phase = SwapPhase::Completed { amount_out };
                }
            },
        }
        HostAction::Halt
    }

    /// The operation's outcome once it has halted: the realized output
    /// amount, or the error that aborted it; `None` while still in flight.
    pub fn result(&self) -> (r: Option<Result<i128, Error>>)
        ensures
            self.phase matches SwapPhase::Completed { amount_out } ==> r == Some(
                Ok::<i128, Error>(amount_out),
            ),
            self.phase matches SwapPhase::Aborted { error } ==> r == Some(
                Err::<i128, Error>(error),
            ),
            !(self.phase is Completed) && !(self.phase is Aborted) ==> r == None::<
                Result<i128, Error>,
            >,
    {
        match self.phase {
            SwapPhase::Completed { amount_out } => Some(Ok(amount_out)),
            SwapPhase::Aborted { error } => Some(Err(error)),
            _ => None,
        }
    }
}

/// For every negative amount, a swap operation aborts at once with
/// `NegativeAmount`: the host is asked for no external call — no custody
/// transfer, no grant declaration, no router invocation.
pub proof fn lemma_swap_negative_amount_aborts(
    contract: SoroswapAuth,
    req: SwapRequest,
    m: SwapOperation,
    a: HostAction,
)
    requires
        req.amount < 0,
        swap_starts(contract, req, m, a),
    ensures
        m.phase == (SwapPhase::Aborted { error: Error::NegativeAmount }),
        a is Halt,
        !crate::host::demands_external_call(a),
{
}

/// With a non-negative amount but no proof of intent, the operation aborts
/// with `AuthenticationFailed`, and no custody transfer was demanded at any
/// step before the abort.
pub proof fn lemma_swap_missing_auth_aborts_before_custody(
    contract0: SoroswapAuth,
    req: SwapRequest,
    m0: SwapOperation,
    a0: HostAction,
    now: u64,
    m1: SwapOperation,
    contract1: SoroswapAuth,
    a1: HostAction,
)
    requires
        req.amount >= 0,
        swap_starts(contract0, req, m0, a0),
        swap_authenticates(m0, contract0, false, now, m1, contract1, a1),
    ensures
        m1.phase == (SwapPhase::Aborted { error: Error::AuthenticationFailed }),
        !crate::host::demands_external_call(a0),
        a1 is Halt,
        contract1.ttl == contract0.ttl,
{
}

/// Expired configuration is its own failure: once the caller is
/// authenticated, an expired time-to-live aborts the swap with
/// `ConfigUnavailable` — never another error, and never a silently defaulted
/// router address.
pub proof fn lemma_swap_expired_config_distinct(
    contract0: SoroswapAuth,
    req: SwapRequest,
    m0: SwapOperation,
    a0: HostAction,
    now: u64,
    m1: SwapOperation,
    contract1: SoroswapAuth,
    a1: HostAction,
)
    requires
        req.amount >= 0,
        swap_starts(contract0, req, m0, a0),
        !contract0.ttl.is_live(now),
        swap_authenticates(m0, contract0, true, now, m1, contract1, a1),
    ensures
        m1.phase == (SwapPhase::Aborted { error: Error::ConfigUnavailable }),
        a1 is Halt,
        contract1.ttl == contract0.ttl,
        contract1.router_address == contract0.router_address,
{
}

/// One successful swap, assembled from its five steps in order. The demands
/// on the host come in the protocol's order — authentication before custody,
/// custody before the pair lookup, the delegated declaration before the one
/// router call it covers — the declared grant names exactly the transfer of
/// the requested amount from the caller to the pair, the router call repeats
/// the request's amount, path, recipient and bounds, and the realized output
/// is the router's last reported amount.
pub proof fn lemma_swap_happy_path(
    contract0: SoroswapAuth,
    req: SwapRequest,
    m0: SwapOperation,
    a0: HostAction,
    now: u64,
    m1: SwapOperation,
    contract1: SoroswapAuth,
    a1: HostAction,
    m2: SwapOperation,
    a2: HostAction,
    pair: Address,
    m3: SwapOperation,
    a3: HostAction,
    m4: SwapOperation,
    a4: HostAction,
    v: Vec<i128>,
    m5: SwapOperation,
    a5: HostAction,
)
    requires
        req.amount >= 0,
        contract0.ttl.is_live(now),
        swap_starts(contract0, req, m0, a0),
        swap_authenticates(m0, contract0, true, now, m1, contract1, a1),
        swap_takes_custody(m1, true, m2, a2),
        swap_grants_delegation(m2, Some(pair), m3, a3),
        swap_calls_router(m3, m4, a4),
        swap_completes(m4, Some(v), m5, a5),
        v@.len() > 0,
    ensures
        a0 == (HostAction::Authenticate { principal: req.caller }),
        a1 == (HostAction::TransferAsset {
            asset: req.token_in,
            from: req.caller,
            to: contract0.contract_address,
            amount: req.amount,
        }),
        a2 == (HostAction::QueryPair {
            router: contract0.router_address,
            token_a: req.token_in,
            token_b: req.token_out,
        }),
        a3 matches HostAction::Authorize { declarations } && declarations@.len() == 1
            && is_transfer_authorization(declarations@[0], req.token_in, req.caller, pair, req.amount),
        a4 matches HostAction::CallRouterSwap { swap_call } && swap_call.router
            == contract0.router_address && swap_call.amount_in == req.amount && swap_call.path@
            == seq![req.token_in, req.token_out] && swap_call.to == req.caller
            && swap_call.amount_out_min == req.amount_out_min && swap_call.deadline == req.deadline,
        a5 is Halt,
        m5.phase == (SwapPhase::Completed { amount_out: v@[v@.len() - 1] }),
{
}

} // verus!
