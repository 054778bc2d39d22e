//! The swap-then-vault-deposit variant: the orchestrator swaps the caller's
//! input asset into the vault's underlying asset through the router, then
//! forwards the realized output into the vault's deposit operation with the
//! caller as beneficiary. As in the swap variant, every demand on the outside
//! is an explicit host action and every transition is pinned by a spec
//! relation.

use vstd::prelude::*;

use crate::address::Address;
use crate::check_nonnegative_amount;
use crate::error::Error;
use crate::host::{HostAction, RouterSwapCall, VaultDepositCall};
use crate::storage::{bumped_live_until, InstanceTtl};

verus! {

/// The inputs of one deposit operation, fixed at entry.
#[derive(Clone, Copy, Debug, PartialEq, Eq, Structural)]
pub struct DepositRequest {
    /// The principal on whose behalf the deposit runs; must prove intent and
    /// becomes the beneficiary of the vault shares.
    pub caller: Address,
    /// The asset being contributed, swapped into the underlying asset first.
    pub token_in: Address,
    /// How much of `token_in` to contribute.
    pub amount: i128,
    /// The minimum acceptable output of the swap leg.
    pub amount_out_min: i128,
    /// The latest ledger time at which the swap leg may still execute.
    pub deadline: u64,
}

/// Where one deposit operation stands.
#[derive(Clone, Copy, Debug, PartialEq, Eq, Structural)]
pub enum DepositPhase {
    /// Amount accepted; waiting for the caller's proof of intent.
    Validating,
    /// Caller authenticated and configuration guarded; the router swap into
    /// the underlying asset is in flight.
    SwapInFlight { vault: Address },
    /// The swap realized `amount_out` of the underlying asset; the vault
    /// deposit is in flight.
    DepositInFlight { amount_out: i128 },
    /// The operation finished; `amount_out` is the swapped amount forwarded
    /// into the vault.
    Completed { amount_out: i128 },
    /// The operation failed; nothing further happens.
    Aborted { error: Error },
}

/// The orchestrator of the deposit variant. Vault, router and underlying
/// asset are fixed at construction and immutable thereafter: no update
/// operation exists.
#[derive(Clone, Copy, Debug, PartialEq, Eq, Structural)]
pub struct DeFindexSimple {
    /// The external vault taking the deposits.
    pub vault_address: Address,
    /// The external router executing the swaps.
    pub router_address: Address,
    /// The vault's underlying asset, the target of every swap leg.
    pub underlying_asset: Address,
    /// Lifetime of the persisted configuration.
    pub ttl: InstanceTtl,
}

/// One in-flight deposit operation.
#[derive(Clone, Copy, Debug, PartialEq, Eq, Structural)]
pub struct DepositOperation {
    pub request: DepositRequest,
    pub phase: DepositPhase,
}

/// How a deposit operation begins: a negative amount aborts with
/// `NegativeAmount` before anything at all is asked of the host; otherwise
/// the host is asked for the caller's proof of intent, and nothing else.
pub open spec fn deposit_starts(
    contract: DeFindexSimple,
    req: DepositRequest,
    m: DepositOperation,
    a: HostAction,
) -> bool {
    &&& m.request == req
    &&& if req.amount < 0 {
        m.phase == (DepositPhase::Aborted { error: Error::NegativeAmount }) && a is Halt
    } else {
        m.phase == DepositPhase::Validating && a == (HostAction::Authenticate {
            principal: req.caller,
        })
    }
}

/// The authentication step: a missing proof of intent aborts with
/// `AuthenticationFailed`; expired configuration aborts with the distinct
/// `ConfigUnavailable`; otherwise the configuration's lifetime is extended
/// and the host is asked to swap the input asset into the underlying asset —
/// the exact input amount, the two-hop path, the caller as recipient.
pub open spec fn deposit_authenticates(
    pre: DepositOperation,
    cpre: DeFindexSimple,
    authenticated: bool,
    now: u64,
    post: DepositOperation,
    cpost: DeFindexSimple,
    a: HostAction,
) -> bool {
    &&& pre.phase == DepositPhase::Validating
    &&& post.request == pre.request
    &&& cpost.vault_address == cpre.vault_address
    &&& cpost.router_address == cpre.router_address
    &&& cpost.underlying_asset == cpre.underlying_asset
    &&& if !authenticated {
        &&& post.phase == (DepositPhase::Aborted { error: Error::AuthenticationFailed })
        &&& a is Halt
        &&& cpost.ttl == cpre.ttl
    } else if !cpre.ttl.is_live(now) {
        &&& post.phase == (DepositPhase::Aborted { error: Error::ConfigUnavailable })
        &&& a is Halt
        &&& cpost.ttl == cpre.ttl
    } else {
        &&& cpost.ttl.live_until == cpre.ttl.extended_live_until(now)
        &&& post.phase == (DepositPhase::SwapInFlight { vault: cpre.vault_address })
        &&& a matches HostAction::CallRouterSwap { swap_call }
        &&& swap_call.router == cpre.router_address
        &&& swap_call.amount_in == pre.request.amount
        &&& swap_call.amount_out_min == pre.request.amount_out_min
        &&& swap_call.path@ == seq![pre.request.token_in, cpre.underlying_asset]
        &&& swap_call.to == pre.request.caller
        &&& swap_call.deadline == pre.request.deadline
    }
}

/// The swap leg's outcome: a router failure — no pair for the input and
/// underlying assets, insufficient liquidity, or an empty report — aborts
/// with `ExternalCallFailed` and the vault is never called; otherwise the
/// last amount along the path is forwarded into the vault's deposit, with a
/// zero minimum and the caller as beneficiary.
pub open spec fn deposit_swap_completes(
    pre: DepositOperation,
    amounts: Option<Vec<i128>>,
    post: DepositOperation,
    a: HostAction,
) -> bool {
    &&& pre.phase matches DepositPhase::SwapInFlight { vault }
    &&& post.request == pre.request
    &&& match amounts {
        None => {
            &&& post.phase == (DepositPhase::Aborted { error: Error::ExternalCallFailed })
            &&& a is Halt
        },
        Some(v) => if v@.len() == 0 {
            &&& post.phase == (DepositPhase::Aborted { error: Error::ExternalCallFailed })
            &&& a is Halt
        } else {
            &&& post.phase == (DepositPhase::DepositInFlight { amount_out: v@[v@.len() - 1] })
            &&& a matches HostAction::CallVaultDeposit { deposit_call }
            &&& deposit_call.vault == vault
            &&& deposit_call.amounts@ == seq![v@[v@.len() - 1]]
            &&& deposit_call.min_amounts@ == seq![0i128]
            &&& deposit_call.beneficiary == pre.request.caller
            &&& deposit_call.invest == false
        },
    }
}

/// How the operation ends: a vault failure aborts with `ExternalCallFailed`;
/// otherwise the operation completes, reporting the swapped amount that went
/// into the vault.
pub open spec fn deposit_completes(
    pre: DepositOperation,
    deposited: bool,
    post: DepositOperation,
    a: HostAction,
) -> bool {
    &&& pre.phase matches DepositPhase::DepositInFlight { amount_out }
    &&& post.request == pre.request
    &&& a is Halt
    &&& if deposited {
        post.phase == (DepositPhase::Completed { amount_out })
    } else {
        post.phase == (DepositPhase::Aborted { error: Error::ExternalCallFailed })
    }
}

impl DeFindexSimple {
    /// Create the orchestrator at ledger sequence `now`, fixing the vault,
    /// router and underlying-asset addresses for the contract's lifetime.
    pub fn __constructor(
        vault_address: Address,
        router_address: Address,
        underlying_asset: Address,
        now: u64,
    ) -> (c: DeFindexSimple)
        ensures
            c.vault_address == vault_address,
            c.router_address == router_address,
            c.underlying_asset == underlying_asset,
            c.ttl.live_until == bumped_live_until(now),
    {
        DeFindexSimple { vault_address, router_address, underlying_asset, ttl: InstanceTtl::new(now) }
    }

    /// Begin depositing `amount` of `token_in` on behalf of `caller`, with
    /// slippage and staleness protection on the swap leg disabled: a zero
    /// output floor and the maximum deadline. Use
    /// [`Self::deposit_with_protection`] to set real bounds.
    pub fn deposit(&self, caller: Address, token_in: Address, amount: i128) -> (r: (
        DepositOperation,
        HostAction,
    ))
        ensures
            deposit_starts(
                *self,
                (DepositRequest { caller, token_in, amount, amount_out_min: 0, deadline: u64::MAX }),
                r.0,
                r.1,
            ),
    {
        self.deposit_with_protection(caller, token_in, amount, 0, u64::MAX)
    }

    /// Begin a deposit with an explicit minimum-output floor and deadline on
    /// the swap leg.
    pub fn deposit_with_protection(
        &self,
        caller: Address,
        token_in: Address,
        amount: i128,
        amount_out_min: i128,
        deadline: u64,
    ) -> (r: (DepositOperation, HostAction))
        ensures
            deposit_starts(
                *self,
                (DepositRequest { caller, token_in, amount, amount_out_min, deadline }),
                r.0,
                r.1,
            ),
    {
        let request = DepositRequest { caller, token_in, amount, amount_out_min, deadline };
        match check_nonnegative_amount(amount) {
            Err(error) => (
                DepositOperation { request, phase: DepositPhase::Aborted { error } },
                HostAction::Halt,
            ),
            Ok(()) => (
                DepositOperation { request, phase: DepositPhase::Validating },
                HostAction::Authenticate { principal: caller },
            ),
        }
    }
}

impl DepositOperation {
    /// Record whether the caller proved intent; on success, guard the
    /// configuration's lifetime and demand the swap into the underlying
    /// asset.
    pub fn on_authenticated(
        &mut self,
        contract: &mut DeFindexSimple,
        authenticated: bool,
        now: u64,
    ) -> (a: HostAction)
        requires
            old(self).phase == DepositPhase::Validating,
        ensures
            deposit_authenticates(
                *old(self),
                *old(contract),
                authenticated,
                now,
                *final(self),
                *final(contract),
                a,
            ),
    {
        if !authenticated {
            self.phase = DepositPhase::Aborted { error: Error::AuthenticationFailed };
            HostAction::Halt
        } else {
            match contract.ttl.extend_instance_ttl(now) {
                Err(error) => {
                    self.phase = DepositPhase::Aborted { error };
                    HostAction::Halt
                },
                Ok(()) => {
                    let mut path: Vec<Address> = Vec::new();
                    path.push(self.request.token_in);
                    path.push(contract.underlying_asset);
                    proof {
                        assert(path@ =~= seq![self.request.token_in, contract.underlying_asset]);
                    }
                    self.phase = DepositPhase::SwapInFlight { vault: contract.vault_address };
                    HostAction::CallRouterSwap {
                        swap_call: RouterSwapCall {
                            router: contract.router_address,
                            amount_in: self.request.amount,
                            amount_out_min: self.request.amount_out_min,
                            path,
                            to: self.request.caller,
                            deadline: self.request.deadline,
                        },
                    }
                },
            }
        }
    }

    /// Record the router's report on the swap leg; on success, forward the
    /// realized output into the vault.
    pub fn on_swap_result(&mut self, amounts: Option<Vec<i128>>) -> (a: HostAction)
        requires
            old(self).phase matches DepositPhase::SwapInFlight { .. },
        ensures
            deposit_swap_completes(*old(self), amounts, *final(self), a),
    {
        match amounts {
            None => {
                self.phase = DepositPhase::Aborted { error: Error::ExternalCallFailed };
                HostAction::Halt
            },
            Some(v) => {
                if v.len() == 0 {
                    self.phase = DepositPhase::Aborted { error: Error::ExternalCallFailed };
                    HostAction::Halt
                } else {
                    match self.phase {
                        DepositPhase::SwapInFlight { vault } => {
                            let amount_out: i128 = v[v.len() - 1];
                            let mut amounts_desired: Vec<i128> = Vec::new();
                            amounts_desired.push(amount_out);
                            let mut amounts_min: Vec<i128> = Vec::new();
                            amounts_min.push(0);
                            proof {
                                assert(amounts_desired@ =~= seq![v@[v@.len() - 1]]);
                                assert(amounts_min@ =~= seq![0i128]);
                            }
                            self.phase = DepositPhase::DepositInFlight { amount_out };
                            HostAction::CallVaultDeposit {
                                deposit_call: VaultDepositCall {
                                    vault,
                                    amounts: amounts_desired,
                                    min_amounts: amounts_min,
                                    beneficiary: self.request.caller,
                                    invest: false,
                                },
                            }
                        },
                        _ => unreached(),
                    }
                }
            },
        }
    }

    /// Record the vault's outcome: success completes the operation with the
    /// swapped amount as its result.
    pub fn on_deposit_result(&mut self, deposited: bool) -> (a: HostAction)
        requires
            old(self).phase matches DepositPhase::DepositInFlight { .. },
        ensures
            deposit_completes(*old(self), deposited, *final(self), a),
    {
        match self.phase {
            DepositPhase::DepositInFlight { amount_out } => {
                if deposited {
                    self.phase = DepositPhase::Completed { amount_out };
                } else {
                    self.phase = DepositPhase::Aborted { error: Error::ExternalCallFailed };
                }
                HostAction::Halt
            },
            _ => unreached(),
        }
    }

    /// The operation's outcome once it has halted: the swapped amount, or the
    /// error that aborted it; `None` while still in flight.
    pub fn result(&self) -> (r: Option<Result<i128, Error>>)
        ensures
            self.phase matches DepositPhase::Completed { amount_out } ==> r == Some(
                Ok::<i128, Error>(amount_out),
            ),
            self.phase matches DepositPhase::Aborted { error } ==> r == Some(
                Err::<i128, Error>(error),
            ),
            !(self.phase is Completed) && !(self.phase is Aborted) ==> r == None::<
                Result<i128, Error>,
            >,
    {
        match self.phase {
            DepositPhase::Completed { amount_out } => Some(Ok(amount_out)),
            DepositPhase::Aborted { error } => Some(Err(error)),
            _ => None,
        }
    }
}

/// For every negative amount, a deposit operation aborts at once with
/// `NegativeAmount`: the host is asked for no external call — no swap, no
/// vault deposit, no declaration.
pub proof fn lemma_deposit_negative_amount_aborts(
    contract: DeFindexSimple,
    req: DepositRequest,
    m: DepositOperation,
    a: HostAction,
)
    requires
        req.amount < 0,
        deposit_starts(contract, req, m, a),
    ensures
        m.phase == (DepositPhase::Aborted { error: Error::NegativeAmount }),
        a is Halt,
        !crate::host::demands_external_call(a),
{
}

/// With a non-negative amount but no proof of intent, the deposit aborts with
/// `AuthenticationFailed` before any external call is demanded.
pub proof fn lemma_deposit_missing_auth_aborts(
    contract0: DeFindexSimple,
    req: DepositRequest,
    m0: DepositOperation,
    a0: HostAction,
    now: u64,
    m1: DepositOperation,
    contract1: DeFindexSimple,
    a1: HostAction,
)
    requires
        req.amount >= 0,
        deposit_starts(contract0, req, m0, a0),
        deposit_authenticates(m0, contract0, false, now, m1, contract1, a1),
    ensures
        m1.phase == (DepositPhase::Aborted { error: Error::AuthenticationFailed }),
        !crate::host::demands_external_call(a0),
        a1 is Halt,
        contract1.ttl == contract0.ttl,
{
}

/// Expired configuration is its own failure: once the caller is
/// authenticated, an expired time-to-live aborts the deposit with
/// `ConfigUnavailable` — never another error, and never silently defaulted
/// addresses.
pub proof fn lemma_deposit_expired_config_distinct(
    contract0: DeFindexSimple,
    req: DepositRequest,
    m0: DepositOperation,
    a0: HostAction,
    now: u64,
    m1: DepositOperation,
    contract1: DeFindexSimple,
    a1: HostAction,
)
    requires
        req.amount >= 0,
        deposit_starts(contract0, req, m0, a0),
        !contract0.ttl.is_live(now),
        deposit_authenticates(m0, contract0, true, now, m1, contract1, a1),
    ensures
        m1.phase == (DepositPhase::Aborted { error: Error::ConfigUnavailable }),
        a1 is Halt,
        contract1.ttl == contract0.ttl,
{
}

/// When the swap leg of a deposit fails — the router reports no pair for the
/// input and underlying assets, or reports nothing — the operation aborts
/// with `ExternalCallFailed` and no vault deposit call is ever issued.
pub proof fn lemma_deposit_swap_failure_skips_vault(
    pre: DepositOperation,
    amounts: Option<Vec<i128>>,
    post: DepositOperation,
    a: HostAction,
)
    requires
        amounts matches Some(v) ==> v@.len() == 0,
        deposit_swap_completes(pre, amounts, post, a),
    ensures
        post.phase == (DepositPhase::Aborted { error: Error::ExternalCallFailed }),
        a is Halt,
        !(a is CallVaultDeposit),
{
}

/// One successful deposit, assembled from its four steps in order: the caller
/// is authenticated before the router is called, the router call repeats the
/// request's amount and the path into the underlying asset, the vault is only
/// called afterwards and receives exactly the swap's last reported amount
/// with the caller as beneficiary, and that amount is the operation's result.
pub proof fn lemma_deposit_happy_path(
    contract0: DeFindexSimple,
    req: DepositRequest,
    m0: DepositOperation,
    a0: HostAction,
    now: u64,
    m1: DepositOperation,
    contract1: DeFindexSimple,
    a1: HostAction,
    v: Vec<i128>,
    m2: DepositOperation,
    a2: HostAction,
    m3: DepositOperation,
    a3: HostAction,
)
    requires
        req.amount >= 0,
        contract0.ttl.is_live(now),
        deposit_starts(contract0, req, m0, a0),
        deposit_authenticates(m0, contract0, true, now, m1, contract1, a1),
        deposit_swap_completes(m1, Some(v), m2, a2),
        deposit_completes(m2, true, m3, a3),
        v@.len() > 0,
    ensures
        a0 == (HostAction::Authenticate { principal: req.caller }),
        a1 matches HostAction::CallRouterSwap { swap_call } && swap_call.router
            == contract0.router_address && swap_call.amount_in == req.amount && swap_call.path@
            == seq![req.token_in, contract0.underlying_asset] && swap_call.to == req.caller,
        a2 matches HostAction::CallVaultDeposit { deposit_call } && deposit_call.vault
            == contract0.vault_address && deposit_call.amounts@ == seq![v@[v@.len() - 1]]
            && deposit_call.min_amounts@ == seq![0i128] && deposit_call.beneficiary == req.caller
            && !deposit_call.invest,
        a3 is Halt,
        m3.phase == (DepositPhase::Completed { amount_out: v@[v@.len() - 1] }),
{
}

} // verus!
