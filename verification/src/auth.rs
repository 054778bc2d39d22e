//! The delegated-authorization protocol core: scoped, single-use permission
//! grants for one exactly-specified downstream call, and the check that holds
//! a downstream call against the grants declared for it.

use vstd::prelude::*;

use crate::address::Address;
use crate::error::Error;

verus! {

/// One argument of a described ledger call.
#[derive(Clone, Copy, Debug, PartialEq, Eq, Structural)]
pub enum ArgValue {
    /// An address argument.
    Addr(Address),
    /// A signed amount argument.
    Int(i128),
}

/// A fully specified ledger call: target contract, function name, and the
/// exact argument list.
#[derive(Debug)]
pub struct Invocation {
    pub contract: Address,
    pub function: String,
    pub args: Vec<ArgValue>,
}

/// Exact agreement of two call descriptions: same target contract, same
/// function name, same arguments in the same order.
pub open spec fn matches_invocation(a: Invocation, b: Invocation) -> bool {
    &&& a.contract == b.contract
    &&& a.function@ == b.function@
    &&& a.args@ == b.args@
}

/// Whether two argument lists agree exactly.
pub fn args_match(a: &Vec<ArgValue>, b: &Vec<ArgValue>) -> (r: bool)
    ensures
        r == (a@ == b@),
{
    if a.len() != b.len() {
        return false;
    }
    let mut i: usize = 0;
    while i < a.len()
        invariant
            0 <= i <= a@.len(),
            a@.len() == b@.len(),
            forall|j: int| 0 <= j < i ==> a@[j] == b@[j],
        decreases a@.len() - i,
    {
        if a[i] != b[i] {
            return false;
        }
        i += 1;
    }
    proof {
        assert(a@ =~= b@);
    }
    true
}

/// Whether two call descriptions agree exactly, field for field.
pub fn invocations_match(a: &Invocation, b: &Invocation) -> (r: bool)
    ensures
        r == matches_invocation(*a, *b),
{
    a.contract == b.contract && a.function == b.function && args_match(&a.args, &b.args)
}

/// A scoped, single-use permission grant: the one downstream call it permits,
/// argument for argument, plus the (usually empty) further grants that call
/// may in turn rely on. Grants are built fresh for every delegated call and
/// never persisted: they live for one invocation chain only.
#[derive(Debug)]
pub struct AuthEntry {
    /// The one call this grant covers.
    pub context: Invocation,
    /// Grants for nested delegated calls made by the covered call. Empty
    /// unless the covered function itself performs further delegated calls
    /// needing pre-authorization.
    pub sub_invocations: Vec<AuthEntry>,
}

impl AuthEntry {
    /// A fresh grant covering exactly the given call, with no nested grants.
    pub fn for_call(context: Invocation) -> (e: AuthEntry)
        ensures
            matches_invocation(e.context, context),
            e.sub_invocations@.len() == 0,
    {
        AuthEntry { context, sub_invocations: Vec::new() }
    }
}

/// The name of the asset-ledger operation a delegated swap grant covers.
pub open spec fn transfer_function_name() -> Seq<char> {
    "transfer"@
}

/// What it means for a grant to be the delegated declaration of exactly one
/// ledger transfer: `transfer(from, to, amount)` on the `asset` contract,
/// with no nested grants.
pub open spec fn is_transfer_authorization(
    e: AuthEntry,
    asset: Address,
    from: Address,
    to: Address,
    amount: i128,
) -> bool {
    &&& e.context.contract == asset
    &&& e.context.function@ == transfer_function_name()
    &&& e.context.args@ == seq![ArgValue::Addr(from), ArgValue::Addr(to), ArgValue::Int(amount)]
    &&& e.sub_invocations@.len() == 0
}

/// Build the delegated-authorization declaration for one exact ledger
/// transfer: the asset contract's `transfer(from, to, amount)`, and nothing
/// else. Any deviation in any field — a different recipient, a different
/// amount — leaves the resulting grant useless for the deviating call.
pub fn build_transfer_authorization(
    asset: Address,
    from: Address,
    to: Address,
    amount: i128,
) -> (e: AuthEntry)
    ensures
        is_transfer_authorization(e, asset, from, to, amount),
{
    let mut args: Vec<ArgValue> = Vec::new();
    args.push(ArgValue::Addr(from));
    args.push(ArgValue::Addr(to));
    args.push(ArgValue::Int(amount));
    proof {
        assert(args@ =~= seq![ArgValue::Addr(from), ArgValue::Addr(to), ArgValue::Int(amount)]);
    }
    AuthEntry::for_call(Invocation {
        contract: asset,
        function: String::from_str("transfer"),
        args,
    })
}

/// Whether some grant among `entries` covers the call `inv` exactly.
pub open spec fn authorization_approves(entries: Seq<AuthEntry>, inv: Invocation) -> bool {
    exists|i: int| 0 <= i < entries.len() && matches_invocation(entries[i].context, inv)
}

/// The check the entity guarding a downstream call performs against the
/// grants declared for it: the call goes through exactly when some grant
/// matches it in every field; otherwise it is rejected.
pub fn check_authorization(entries: &Vec<AuthEntry>, inv: &Invocation) -> (r: Result<(), Error>)
    ensures
        r == Ok::<(), Error>(()) <==> authorization_approves(entries@, *inv),
        r is Err ==> r == Err::<(), Error>(Error::AuthorizationRejected),
{
    let mut i: usize = 0;
    while i < entries.len()
        invariant
            0 <= i <= entries@.len(),
            forall|j: int| 0 <= j < i ==> !matches_invocation(entries@[j].context, *inv),
        decreases entries@.len() - i,
    {
        if invocations_match(&entries[i].context, inv) {
            assert(matches_invocation(entries@[i as int].context, *inv));
            return Ok(());
        }
        i += 1;
    }
    Err(Error::AuthorizationRejected)
}

/// Exactness of a delegated transfer declaration: a grant built for
/// `transfer(from, to, amount)` on `asset` lets a downstream call pass the
/// authorization check exactly when that call names the same contract, the
/// same function and the same three arguments; mutate any one field and the
/// call is rejected.
pub proof fn lemma_transfer_declaration_exactness(
    e: AuthEntry,
    asset: Address,
    from: Address,
    to: Address,
    amount: i128,
    inv: Invocation,
)
    requires
        is_transfer_authorization(e, asset, from, to, amount),
    ensures
        authorization_approves(seq![e], inv) <==> {
            &&& inv.contract == asset
            &&& inv.function@ == transfer_function_name()
            &&& inv.args@ == seq![ArgValue::Addr(from), ArgValue::Addr(to), ArgValue::Int(amount)]
        },
{
    if authorization_approves(seq![e], inv) {
        let i = choose|i: int|
            0 <= i < seq![e].len() && matches_invocation(seq![e][i].context, inv);
        assert(i == 0);
        assert(matches_invocation(e.context, inv));
    }
    if {
        &&& inv.contract == asset
        &&& inv.function@ == transfer_function_name()
        &&& inv.args@ == seq![ArgValue::Addr(from), ArgValue::Addr(to), ArgValue::Int(amount)]
    } {
        assert(matches_invocation(seq![e][0].context, inv));
        assert(authorization_approves(seq![e], inv));
    }
}

/// Round trip of declaration and check: a grant built for a call `c` approves
/// `c` itself, and approves an invocation exactly when it agrees with `c` in
/// every field — so changing any single argument of the checked call always
/// fails the check.
pub proof fn lemma_declaration_round_trip(e: AuthEntry, c: Invocation, inv: Invocation)
    requires
        matches_invocation(e.context, c),
    ensures
        authorization_approves(seq![e], c),
        authorization_approves(seq![e], inv) <==> matches_invocation(c, inv),
{
    assert(matches_invocation(seq![e][0].context, c));
    if authorization_approves(seq![e], inv) {
        let i = choose|i: int|
            0 <= i < seq![e].len() && matches_invocation(seq![e][i].context, inv);
        assert(i == 0);
        assert(matches_invocation(c, inv));
    }
    if matches_invocation(c, inv) {
        assert(matches_invocation(seq![e][0].context, inv));
    }
}

} // verus!
