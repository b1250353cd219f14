use vstd::prelude::*;

verus! {

/// An account or contract on the ledger, named by its strkey text
/// (`G...` for accounts, `C...` for contracts).
#[derive(Clone, Debug)]
pub struct Address {
    key: String,
}

impl View for Address {
    type V = Seq<char>;

    closed spec fn view(&self) -> Seq<char> {
        self.key@
    }
}

impl Address {
    /// Names the ledger entity whose strkey text is `key`.
    pub fn from_text(key: String) -> (a: Address)
        ensures
            a@ == key@,
    {
        Address { key }
    }

    /// The strkey text of this address.
    pub fn text(&self) -> (s: &String)
        ensures
            s@ == self@,
    {
        &self.key
    }

    /// Whether both values name the same ledger entity.
    pub fn matches(&self, other: &Address) -> (same: bool)
        ensures
            same == (self@ == other@),
    {
        self.key == other.key
    }

    /// An exact copy of this address.
    pub fn duplicate(&self) -> (a: Address)
        ensures
            a == *self,
    {
        Address { key: self.key.clone() }
    }
}

/// One side of a token transfer.
#[derive(Clone, Debug)]
pub enum Party {
    /// The contract that issues the transfer (the host's current contract).
    ThisContract,
    /// Any other account or contract.
    Account(Address),
}

/// A token transfer that the host has to carry out: `amount` units of the
/// token contract `token`, moved from `from` to `to`.
#[derive(Clone, Debug)]
pub struct Transfer {
    pub token: Address,
    pub from: Party,
    pub to: Party,
    pub amount: i128,
}

} // verus!
