//! End-to-end scenarios for the two operation state machines, with a small
//! in-memory host double that performs the demanded actions against a toy
//! ledger and asserts on exact argument matches.

use delegated_swap::address::Address;
use delegated_swap::auth::{check_authorization, ArgValue, AuthEntry, Invocation};
use delegated_swap::error::Error;
use delegated_swap::host::HostAction;
use delegated_swap::storage::INSTANCE_BUMP_AMOUNT;
use delegated_swap::swap_auth::{SoroswapAuth, SwapPhase};
use delegated_swap::zap::{DeFindexSimple, DepositPhase};

const CALLER: u64 = 1;
const TOKEN_A: u64 = 2;
const TOKEN_B: u64 = 3;
const ROUTER: u64 = 4;
const PAIR: u64 = 5;
const CONTRACT: u64 = 6;
const VAULT: u64 = 7;
const UNDERLYING: u64 = 8;

/// A transfer observed on the toy asset ledger: (asset, from, to, amount).
type Transfer = (u64, u64, u64, i128);

#[test]
fn swap_negative_amount_fails_without_external_calls() {
    let contract = SoroswapAuth::__constructor(Address::new(CONTRACT), Address::new(ROUTER), 0);
    let (op, action) = contract.swap(
        Address::new(CALLER),
        Address::new(TOKEN_A),
        Address::new(TOKEN_B),
        -1,
    );
    assert!(matches!(action, HostAction::Halt));
    assert_eq!(op.phase, SwapPhase::Aborted { error: Error::NegativeAmount });
    assert_eq!(op.result(), Some(Err(Error::NegativeAmount)));
}

#[test]
fn deposit_negative_amount_fails_without_external_calls() {
    let contract = DeFindexSimple::__constructor(
        Address::new(VAULT),
        Address::new(ROUTER),
        Address::new(UNDERLYING),
        0,
    );
    let (op, action) = contract.deposit(Address::new(CALLER), Address::new(TOKEN_A), -100);
    assert!(matches!(action, HostAction::Halt));
    assert_eq!(op.phase, DepositPhase::Aborted { error: Error::NegativeAmount });
    assert_eq!(op.result(), Some(Err(Error::NegativeAmount)));
}

#[test]
fn swap_missing_proof_of_intent_fails_before_custody() {
    let mut contract = SoroswapAuth::__constructor(Address::new(CONTRACT), Address::new(ROUTER), 0);
    let (mut op, action) = contract.swap(
        Address::new(CALLER),
        Address::new(TOKEN_A),
        Address::new(TOKEN_B),
        100,
    );
    // The only demand so far is authentication: nothing external, no custody.
    assert!(matches!(action, HostAction::Authenticate { principal } if principal.id == CALLER));
    let after = op.on_authenticated(&mut contract, false, 0);
    assert!(matches!(after, HostAction::Halt));
    assert_eq!(op.result(), Some(Err(Error::AuthenticationFailed)));
}

#[test]
fn deposit_missing_proof_of_intent_fails() {
    let mut contract = DeFindexSimple::__constructor(
        Address::new(VAULT),
        Address::new(ROUTER),
        Address::new(UNDERLYING),
        0,
    );
    let (mut op, action) = contract.deposit(Address::new(CALLER), Address::new(TOKEN_A), 100);
    assert!(matches!(action, HostAction::Authenticate { principal } if principal.id == CALLER));
    let after = op.on_authenticated(&mut contract, false, 0);
    assert!(matches!(after, HostAction::Halt));
    assert_eq!(op.result(), Some(Err(Error::AuthenticationFailed)));
}

#[test]
fn swap_end_to_end_moves_custody_into_the_pair() {
    let mut contract = SoroswapAuth::__constructor(Address::new(CONTRACT), Address::new(ROUTER), 0);
    let mut ledger: Vec<Transfer> = Vec::new();
    let mut declared: Vec<AuthEntry> = Vec::new();

    let (mut op, mut action) = contract.swap(
        Address::new(CALLER),
        Address::new(TOKEN_A),
        Address::new(TOKEN_B),
        100,
    );
    // The host double performs each demanded action and feeds the outcome
    // back, exactly as a ledger runtime would.
    loop {
        match action {
            HostAction::Authenticate { principal } => {
                assert_eq!(principal.id, CALLER);
                action = op.on_authenticated(&mut contract, true, 10);
            }
            HostAction::TransferAsset { asset, from, to, amount } => {
                assert_eq!((asset.id, from.id, to.id, amount), (TOKEN_A, CALLER, CONTRACT, 100));
                ledger.push((asset.id, from.id, to.id, amount));
                action = op.on_custody_result(true);
            }
            HostAction::QueryPair { router, token_a, token_b } => {
                assert_eq!((router.id, token_a.id, token_b.id), (ROUTER, TOKEN_A, TOKEN_B));
                action = op.on_pair_result(Some(Address::new(PAIR)));
            }
            HostAction::Authorize { declarations } => {
                assert_eq!(declarations.len(), 1);
                declared = declarations;
                action = op.on_authorized();
            }
            HostAction::CallRouterSwap { swap_call } => {
                assert_eq!(swap_call.router.id, ROUTER);
                assert_eq!(swap_call.amount_in, 100);
                assert_eq!(swap_call.amount_out_min, 0);
                assert_eq!(swap_call.to.id, CALLER);
                assert_eq!(swap_call.deadline, u64::MAX);
                let path: Vec<u64> = swap_call.path.iter().map(|a| a.id).collect();
                assert_eq!(path, vec![TOKEN_A, TOKEN_B]);
                // The router moves the input tokens into the pair — a call it
                // may only make under the declared grant.
                let transfer = Invocation {
                    contract: Address::new(TOKEN_A),
                    function: String::from("transfer"),
                    args: vec![
                        ArgValue::Addr(Address::new(CALLER)),
                        ArgValue::Addr(Address::new(PAIR)),
                        ArgValue::Int(100),
                    ],
                };
                assert_eq!(check_authorization(&declared, &transfer), Ok(()));
                ledger.push((TOKEN_A, CALLER, PAIR, 100));
                action = op.on_swap_result(Some(vec![100, 250]));
            }
            HostAction::CallVaultDeposit { .. } => panic!("no vault in the swap variant"),
            HostAction::Halt => break,
        }
    }
    // The realized output is the router's reported last amount, and the
    // ledger shows 100 of token A moved from the caller into the pair.
    assert_eq!(op.result(), Some(Ok(250)));
    assert!(ledger.contains(&(TOKEN_A, CALLER, PAIR, 100)));
}

#[test]
fn swap_router_grant_covers_only_the_exact_transfer() {
    let mut contract = SoroswapAuth::__constructor(Address::new(CONTRACT), Address::new(ROUTER), 0);
    let (mut op, _) = contract.swap(
        Address::new(CALLER),
        Address::new(TOKEN_A),
        Address::new(TOKEN_B),
        100,
    );
    op.on_authenticated(&mut contract, true, 0);
    op.on_custody_result(true);
    let action = op.on_pair_result(Some(Address::new(PAIR)));
    let declarations = match action {
        HostAction::Authorize { declarations } => declarations,
        _ => panic!("expected a declaration"),
    };
    // A router that tries to move a different amount, or to a different
    // recipient, is rejected by the ledger's check.
    let wrong_amount = Invocation {
        contract: Address::new(TOKEN_A),
        function: String::from("transfer"),
        args: vec![
            ArgValue::Addr(Address::new(CALLER)),
            ArgValue::Addr(Address::new(PAIR)),
            ArgValue::Int(101),
        ],
    };
    assert_eq!(
        check_authorization(&declarations, &wrong_amount),
        Err(Error::AuthorizationRejected)
    );
    let wrong_recipient = Invocation {
        contract: Address::new(TOKEN_A),
        function: String::from("transfer"),
        args: vec![
            ArgValue::Addr(Address::new(CALLER)),
            ArgValue::Addr(Address::new(ROUTER)),
            ArgValue::Int(100),
        ],
    };
    assert_eq!(
        check_authorization(&declarations, &wrong_recipient),
        Err(Error::AuthorizationRejected)
    );
}

#[test]
fn swap_custody_failure_aborts() {
    let mut contract = SoroswapAuth::__constructor(Address::new(CONTRACT), Address::new(ROUTER), 0);
    let (mut op, _) = contract.swap(
        Address::new(CALLER),
        Address::new(TOKEN_A),
        Address::new(TOKEN_B),
        100,
    );
    op.on_authenticated(&mut contract, true, 0);
    let action = op.on_custody_result(false);
    assert!(matches!(action, HostAction::Halt));
    assert_eq!(op.result(), Some(Err(Error::ExternalCallFailed)));
}

#[test]
fn swap_empty_router_report_aborts() {
    let mut contract = SoroswapAuth::__constructor(Address::new(CONTRACT), Address::new(ROUTER), 0);
    let (mut op, _) = contract.swap(
        Address::new(CALLER),
        Address::new(TOKEN_A),
        Address::new(TOKEN_B),
        100,
    );
    op.on_authenticated(&mut contract, true, 0);
    op.on_custody_result(true);
    op.on_pair_result(Some(Address::new(PAIR)));
    op.on_authorized();
    let action = op.on_swap_result(Some(Vec::new()));
    assert!(matches!(action, HostAction::Halt));
    assert_eq!(op.result(), Some(Err(Error::ExternalCallFailed)));
}

#[test]
fn swap_missing_pair_aborts_without_declaration() {
    let mut contract = SoroswapAuth::__constructor(Address::new(CONTRACT), Address::new(ROUTER), 0);
    let (mut op, _) = contract.swap(
        Address::new(CALLER),
        Address::new(TOKEN_A),
        Address::new(TOKEN_B),
        100,
    );
    op.on_authenticated(&mut contract, true, 0);
    op.on_custody_result(true);
    let action = op.on_pair_result(None);
    assert!(matches!(action, HostAction::Halt));
    assert_eq!(op.result(), Some(Err(Error::ExternalCallFailed)));
}

#[test]
fn swap_with_protection_carries_floor_and_deadline() {
    let mut contract = SoroswapAuth::__constructor(Address::new(CONTRACT), Address::new(ROUTER), 0);
    let (mut op, _) = contract.swap_with_protection(
        Address::new(CALLER),
        Address::new(TOKEN_A),
        Address::new(TOKEN_B),
        100,
        95,
        12345,
    );
    op.on_authenticated(&mut contract, true, 0);
    op.on_custody_result(true);
    op.on_pair_result(Some(Address::new(PAIR)));
    let action = op.on_authorized();
    match action {
        HostAction::CallRouterSwap { swap_call } => {
            assert_eq!(swap_call.amount_out_min, 95);
            assert_eq!(swap_call.deadline, 12345);
        }
        _ => panic!("expected the router call"),
    }
}

#[test]
fn deposit_end_to_end_forwards_swapped_amount_into_vault() {
    let mut contract = DeFindexSimple::__constructor(
        Address::new(VAULT),
        Address::new(ROUTER),
        Address::new(UNDERLYING),
        0,
    );
    let (mut op, mut action) = contract.deposit(Address::new(CALLER), Address::new(TOKEN_A), 100);
    let mut vault_deposits: Vec<(u64, i128)> = Vec::new();
    loop {
        match action {
            HostAction::Authenticate { principal } => {
                assert_eq!(principal.id, CALLER);
                action = op.on_authenticated(&mut contract, true, 5);
            }
            HostAction::CallRouterSwap { swap_call } => {
                let path: Vec<u64> = swap_call.path.iter().map(|a| a.id).collect();
                assert_eq!(path, vec![TOKEN_A, UNDERLYING]);
                assert_eq!(swap_call.router.id, ROUTER);
                assert_eq!(swap_call.amount_in, 100);
                assert_eq!(swap_call.to.id, CALLER);
                action = op.on_swap_result(Some(vec![100, 80]));
            }
            HostAction::CallVaultDeposit { deposit_call } => {
                assert_eq!(deposit_call.vault.id, VAULT);
                assert_eq!(deposit_call.amounts, vec![80]);
                assert_eq!(deposit_call.min_amounts, vec![0]);
                assert_eq!(deposit_call.beneficiary.id, CALLER);
                assert!(!deposit_call.invest);
                vault_deposits.push((deposit_call.vault.id, deposit_call.amounts[0]));
                action = op.on_deposit_result(true);
            }
            HostAction::Halt => break,
            _ => panic!("the deposit variant demands no other action"),
        }
    }
    assert_eq!(op.result(), Some(Ok(80)));
    assert_eq!(vault_deposits, vec![(VAULT, 80)]);
}

#[test]
fn deposit_without_pair_never_reaches_the_vault() {
    let mut contract = DeFindexSimple::__constructor(
        Address::new(VAULT),
        Address::new(ROUTER),
        Address::new(UNDERLYING),
        0,
    );
    let (mut op, mut action) = contract.deposit(Address::new(CALLER), Address::new(TOKEN_A), 100);
    let mut vault_called = false;
    loop {
        match action {
            HostAction::Authenticate { .. } => {
                action = op.on_authenticated(&mut contract, true, 5);
            }
            HostAction::CallRouterSwap { .. } => {
                // The router finds no pair for token A and the underlying
                // asset: the swap leg fails.
                action = op.on_swap_result(None);
            }
            HostAction::CallVaultDeposit { .. } => {
                vault_called = true;
                action = op.on_deposit_result(true);
            }
            HostAction::Halt => break,
            _ => panic!("the deposit variant demands no other action"),
        }
    }
    assert_eq!(op.result(), Some(Err(Error::ExternalCallFailed)));
    assert!(!vault_called);
}

#[test]
fn expired_configuration_is_a_distinct_failure() {
    let expired_at: u64 = INSTANCE_BUMP_AMOUNT + 1;

    let mut swap_contract =
        SoroswapAuth::__constructor(Address::new(CONTRACT), Address::new(ROUTER), 0);
    let (mut swap_op, _) = swap_contract.swap(
        Address::new(CALLER),
        Address::new(TOKEN_A),
        Address::new(TOKEN_B),
        100,
    );
    let action = swap_op.on_authenticated(&mut swap_contract, true, expired_at);
    assert!(matches!(action, HostAction::Halt));
    assert_eq!(swap_op.result(), Some(Err(Error::ConfigUnavailable)));
    assert_ne!(swap_op.result(), Some(Err(Error::ExternalCallFailed)));

    let mut zap_contract = DeFindexSimple::__constructor(
        Address::new(VAULT),
        Address::new(ROUTER),
        Address::new(UNDERLYING),
        0,
    );
    let (mut zap_op, _) =
        zap_contract.deposit(Address::new(CALLER), Address::new(TOKEN_A), 100);
    let action = zap_op.on_authenticated(&mut zap_contract, true, expired_at);
    assert!(matches!(action, HostAction::Halt));
    assert_eq!(zap_op.result(), Some(Err(Error::ConfigUnavailable)));
    // The stored router address is untouched, not zeroed or defaulted.
    assert_eq!(zap_contract.router_address, Address::new(ROUTER));
}

#[test]
fn deposit_with_protection_carries_floor_and_deadline() {
    let mut contract = DeFindexSimple::__constructor(
        Address::new(VAULT),
        Address::new(ROUTER),
        Address::new(UNDERLYING),
        0,
    );
    let (mut op, _) = contract.deposit_with_protection(
        Address::new(CALLER),
        Address::new(TOKEN_A),
        100,
        70,
        999,
    );
    let action = op.on_authenticated(&mut contract, true, 0);
    match action {
        HostAction::CallRouterSwap { swap_call } => {
            assert_eq!(swap_call.amount_out_min, 70);
            assert_eq!(swap_call.deadline, 999);
        }
        _ => panic!("expected the router call"),
    }
}
