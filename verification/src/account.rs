use vstd::prelude::*;

verus! {

/// One host-owned account as the core sees it for a single call: a stable
/// identifier, a lamport balance (the smallest indivisible unit of value),
/// and the host's signer flag for this call.
///
/// The host owns the underlying storage; the core borrows an ordered list
/// of these handles for the duration of one instruction and hands it back
/// with the balances it was asked to move.
#[derive(Debug, Clone, Copy, PartialEq, Eq, Structural)]
pub struct Account {
    pub id: u64,
    pub balance: u64,
    pub is_signer: bool,
}

/// The same account with its balance replaced; identifier and signer flag
/// are untouched.
pub open spec fn with_balance(account: Account, balance: u64) -> Account {
    Account { id: account.id, balance, is_signer: account.is_signer }
}

} // verus!
