//! What the library asks of the host ledger: the plain identities and
//! amounts it works with, and the calls it hands back for the host to make.

use vstd::prelude::*;

verus! {

/// An account of the host ledger.
pub type AccountId = u64;

/// An amount of the ledger's asset.
pub type Balance = u64;

/// A block height: the ledger's clock.
pub type BlockNumber = u64;

/// The tag under which a lock is placed on an account's funds.
pub type LockIdentifier = [u8; 8];

/// One call into the host ledger.
#[derive(Clone, Copy, Debug, PartialEq, Eq)]
pub enum LedgerCall {
    /// Encumber `amount` of the account's funds under the tag.
    SetLock(LockIdentifier, AccountId, Balance),
    /// Lift the lock that the tag names from the account.
    RemoveLock(LockIdentifier, AccountId),
    /// Move `amount` from the first account to the second; the ledger may refuse it.
    Transfer(AccountId, AccountId, Balance),
}

/// What a successful operation asks of the host: the ledger calls to make, in
/// order, and the notifications to emit once all of them have gone through.
/// Where the ledger refuses a call, the host drops the whole operation,
/// state change included.
#[derive(Debug)]
pub struct Outcome<E> {
    pub calls: Vec<LedgerCall>,
    pub events: Vec<E>,
}

impl<E> Outcome<E> {
    /// An operation that leaves the ledger alone and emits nothing.
    pub fn none() -> (r: Outcome<E>)
        ensures
            r.calls@ == Seq::<LedgerCall>::empty(),
            r.events@ == Seq::<E>::empty(),
    {
        Outcome { calls: Vec::new(), events: Vec::new() }
    }
}

} // verus!
