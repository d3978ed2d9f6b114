use vstd::prelude::*;

verus! {

/// Which kind of ledger entity an address names.
#[derive(Clone, Copy, PartialEq, Eq, Debug, Hash, Structural)]
pub enum AddressKind {
    /// An account, named by its ed25519 public key.
    Account,
    /// A contract, named by its 32-byte contract id.
    Contract,
}

/// A ledger address: a 32-byte key, kept as its high and low 128-bit halves,
/// together with the kind of entity it names.
///
/// Two addresses are the same exactly when kind and key agree; the contracts
/// of this crate compare addresses and do nothing else with them.
#[derive(Clone, Copy, PartialEq, Eq, Debug, Hash, Structural)]
pub struct Address {
    pub kind: AddressKind,
    pub key_hi: u128,
    pub key_lo: u128,
}

impl Address {
    /// The address of the account with the given public key.
    pub fn account(key_hi: u128, key_lo: u128) -> (a: Address)
        ensures
            a == (Address { kind: AddressKind::Account, key_hi, key_lo }),
    {
        Address { kind: AddressKind::Account, key_hi, key_lo }
    }

    /// The address of the contract with the given id.
    pub fn contract(key_hi: u128, key_lo: u128) -> (a: Address)
        ensures
            a == (Address { kind: AddressKind::Contract, key_hi, key_lo }),
    {
        Address { kind: AddressKind::Contract, key_hi, key_lo }
    }
}

} // verus!
