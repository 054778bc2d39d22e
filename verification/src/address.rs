use vstd::prelude::*;

verus! {

/// An opaque principal or contract identifier on the host ledger.
///
/// The orchestrator never looks inside an address: it only stores, compares
/// and repeats them. The host keeps the correspondence between these
/// identifiers and its own address representation.
#[derive(Clone, Copy, Debug, PartialEq, Eq, Structural)]
pub struct Address {
    pub id: u64,
}

impl Address {
    /// The address with the given host-chosen identifier.
    pub fn new(id: u64) -> (a: Address)
        ensures
            a.id == id,
    {
        Address { id }
    }
}

} // verus!
