//! The share account and the keys that control it.

use vstd::prelude::*;

verus! {

/// A 32-byte key that names an identity or a program.
pub type Key = [u8; 32];

/// One identity's holding of shares.
#[derive(Clone, Copy, Debug, PartialEq, Eq)]
pub struct ShareAccount {
    /// The authority that controls the account; never changed by a trade.
    pub owner: Key,
    /// The number of shares held.
    pub balance: u64,
}

impl ShareAccount {
    /// An account of `owner` with `balance` shares.
    pub fn new(owner: Key, balance: u64) -> (account: ShareAccount)
        ensures
            account.owner == owner,
            account.balance == balance,
    {
        ShareAccount { owner, balance }
    }

    /// Whether `authority` is the key that controls this account.
    pub open spec fn controlled_by(&self, authority: Key) -> bool {
        self.owner@ == authority@
    }
}

/// Whether two keys hold the same bytes.
pub fn same_key(left: &Key, right: &Key) -> (same: bool)
    ensures
        same == (left@ == right@),
{
    let mut i: usize = 0;
    while i < 32
        invariant
            i <= 32,
            forall|j: int| 0 <= j < i ==> left@[j] == right@[j],
        decreases 32 - i,
    {
        if left[i] != right[i] {
            return false;
        }
        i += 1;
    }
    assert(left@ =~= right@);
    true
}

} // verus!
