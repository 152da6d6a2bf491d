//! What the program reads of the token ledger.

use solana_program::program_error::ProgramError;
use solana_program::program_pack::Pack;
use vstd::prelude::*;

verus! {

/// The amount that the bytes of an initialized SPL token account record, if
/// they are the bytes of one.
pub uninterp spec fn token_account_amount(data: Seq<u8>) -> Option<u64>;

/// Unpacks an SPL token account with `spl_token::state::Account::unpack` and
/// hands out the amount it holds. The contract is taken on trust from the
/// token program: whether the bytes unpack, and to what amount, depends on
/// the bytes alone. A failure comes with the ledger's own error.
#[verifier::external_body]
pub(crate) fn unpack_token_amount(data: &[u8]) -> (amount: Result<u64, ProgramError>)
    ensures
        amount is Ok <==> token_account_amount(data@) is Some,
        amount matches Ok(held) ==> token_account_amount(data@) == Some(held),
{
    spl_token::state::Account::unpack(data).map(|account| account.amount)
}

} // verus!
