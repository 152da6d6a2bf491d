//! The reasons for which an instruction is rejected.

use solana_program::program_error::ProgramError;
use vstd::prelude::*;

verus! {

/// `solana_program::program_error::ProgramError`, the error of the Solana
/// runtime. Nothing is known of its values here; they are carried through as
/// they were given.
#[verifier::external_type_specification]
#[verifier::external_body]
pub struct ExProgramError(ProgramError);

/// The failures that the program itself raises.
#[derive(Clone, Copy, Debug, PartialEq, Eq, Structural)]
pub enum FriendtechError {
    /// The account is not controlled by the expected authority.
    IncorrectOwner,
    /// The payer cannot cover the cost, or the seller holds too few shares.
    InsufficientFunds,
}

impl FriendtechError {
    /// The number under which the runtime reports this failure.
    pub open spec fn spec_code(&self) -> u32 {
        match self {
            FriendtechError::IncorrectOwner => 0,
            FriendtechError::InsufficientFunds => 1,
        }
    }

    /// The number under which the runtime reports this failure.
    #[verifier::when_used_as_spec(spec_code)]
    pub fn code(&self) -> (code: u32)
        ensures
            code == self.spec_code(),
    {
        match self {
            FriendtechError::IncorrectOwner => 0,
            FriendtechError::InsufficientFunds => 1,
        }
    }
}

/// Every way in which an instruction ends without a change to the account.
#[derive(Debug, PartialEq, Eq)]
pub enum Rejection {
    /// The program refused the instruction.
    Program(FriendtechError),
    /// The instruction bytes do not encode a buy or a sell.
    MalformedInstruction,
    /// The payer's token account could not be read; the ledger's own error.
    InvalidTokenAccount(ProgramError),
    /// The buy is paid for, but the balance cannot hold the shares it adds.
    BalanceOverflow,
    /// The ledger did not carry out the transfer.
    SettlementFailure,
}

} // verus!
