//! What the orchestrator asks of its host platform. Every demand on the
//! outside world — the caller's proof of intent, a ledger transfer, a router
//! or vault call — is an explicit value of [`HostAction`]; the host performs
//! it and feeds the outcome back into the operation's state machine.

use vstd::prelude::*;

use crate::address::Address;
use crate::auth::AuthEntry;

verus! {

/// The router's exact-input swap call, fully specified.
pub struct RouterSwapCall {
    /// The router contract to invoke.
    pub router: Address,
    /// The exact input amount to swap.
    pub amount_in: i128,
    /// The minimum acceptable output amount (slippage floor).
    pub amount_out_min: i128,
    /// The hop sequence from input asset to output asset.
    pub path: Vec<Address>,
    /// The recipient of the output tokens.
    pub to: Address,
    /// The latest ledger time at which the swap may still execute.
    pub deadline: u64,
}

/// The vault's deposit call, fully specified.
pub struct VaultDepositCall {
    /// The vault contract to invoke.
    pub vault: Address,
    /// The amounts to deposit, one per managed asset.
    pub amounts: Vec<i128>,
    /// The minimum amounts to accept (slippage floor).
    pub min_amounts: Vec<i128>,
    /// Who the issued shares belong to.
    pub beneficiary: Address,
    /// Whether the vault should immediately put the deposit to work.
    pub invest: bool,
}

/// One demand on the host platform.
pub enum HostAction {
    /// Require a proof of intent from the principal for the current
    /// invocation.
    Authenticate { principal: Address },
    /// Move `amount` of `asset` from `from` to `to` on the asset ledger,
    /// under the authorization already granted by the caller's signature.
    TransferAsset { asset: Address, from: Address, to: Address, amount: i128 },
    /// Ask the router for the liquidity pair of the two tokens.
    QueryPair { router: Address, token_a: Address, token_b: Address },
    /// Declare the given delegated grants as the current contract, so that
    /// the one downstream call each grant names may pass the ledger's
    /// authorization check.
    Authorize { declarations: Vec<AuthEntry> },
    /// Invoke the router's exact-input swap.
    CallRouterSwap { swap_call: RouterSwapCall },
    /// Forward swapped funds into the vault.
    CallVaultDeposit { deposit_call: VaultDepositCall },
    /// Nothing more: the operation has completed or aborted.
    Halt,
}

/// The actions that reach outside the orchestrator: a custody transfer, an
/// authorization declaration, or a router or vault invocation. Demanding a
/// proof of intent reaches no external contract, and `Halt` demands nothing.
pub open spec fn demands_external_call(a: HostAction) -> bool {
    ||| a is TransferAsset
    ||| a is QueryPair
    ||| a is Authorize
    ||| a is CallRouterSwap
    ||| a is CallVaultDeposit
}

} // verus!
