//! The instructions of the program and their encoding.

use crate::error::Rejection;
use vstd::prelude::*;

verus! {

/// A request to trade shares.
#[derive(Clone, Copy, Debug, PartialEq, Eq, Structural)]
pub enum FriendtechInstruction {
    /// Buy `amount` shares.
    BuyShares { amount: u64 },
    /// Sell `amount` shares.
    SellShares { amount: u64 },
}

/// The number that a sequence of bytes spells, lowest byte first.
pub open spec fn little_endian(bytes: Seq<u8>) -> nat
    decreases bytes.len(),
{
    if bytes.len() == 0 {
        0
    } else {
        bytes[0] as nat + 256 * little_endian(bytes.skip(1))
    }
}

/// Reads a `u64` with `borsh::from_slice`. The contract is taken on trust
/// from borsh: it reads exactly eight bytes, lowest byte first, and fails on
/// any other length.
#[verifier::external_body]
fn borsh_u64(bytes: &[u8]) -> (value: Option<u64>)
    ensures
        value is Some <==> bytes@.len() == 8,
        value is Some ==> value->Some_0 as nat == little_endian(bytes@),
{
    borsh::from_slice::<u64>(bytes).ok()
}

impl FriendtechInstruction {
    /// The number of shares that the instruction trades.
    pub open spec fn spec_amount(&self) -> u64 {
        match self {
            FriendtechInstruction::BuyShares { amount } => *amount,
            FriendtechInstruction::SellShares { amount } => *amount,
        }
    }

    /// The number of shares that the instruction trades.
    #[verifier::when_used_as_spec(spec_amount)]
    pub fn amount(&self) -> (amount: u64)
        ensures
            amount == self.spec_amount(),
    {
        match self {
            FriendtechInstruction::BuyShares { amount } => *amount,
            FriendtechInstruction::SellShares { amount } => *amount,
        }
    }

    /// The first byte of the instruction's encoding.
    pub open spec fn tag(&self) -> u8 {
        match self {
            FriendtechInstruction::BuyShares { .. } => 0,
            FriendtechInstruction::SellShares { .. } => 1,
        }
    }

    /// Whether `data` is the encoding of this instruction: the tag, then the
    /// amount in eight bytes, lowest byte first, and nothing more.
    pub open spec fn encoded_as(&self, data: Seq<u8>) -> bool {
        &&& data.len() == 9
        &&& data[0] == self.tag()
        &&& little_endian(data.subrange(1, 9)) == self.spec_amount() as nat
    }

    /// Whether `data` is the encoding of some instruction.
    pub open spec fn is_encoding(data: Seq<u8>) -> bool {
        data.len() == 9 && data[0] <= 1
    }

    /// Decodes an instruction. Every sequence of nine bytes that starts with a
    /// known tag decodes; nothing else does.
    pub fn try_from_slice(data: &[u8]) -> (decoded: Result<FriendtechInstruction, Rejection>)
        ensures
            decoded is Ok <==> Self::is_encoding(data@),
            decoded matches Ok(instruction) ==> instruction.encoded_as(data@),
            decoded matches Err(rejection) ==> rejection == Rejection::MalformedInstruction,
    {
        if data.len() == 0 {
            return Err(Rejection::MalformedInstruction);
        }
        let tag: u8 = data[0];
        let rest = &data[1..data.len()];
        assert(rest@ == data@.subrange(1, data@.len() as int));
        match borsh_u64(rest) {
            Some(amount) => {
                if tag == 0 {
                    Ok(FriendtechInstruction::BuyShares { amount })
                } else if tag == 1 {
                    Ok(FriendtechInstruction::SellShares { amount })
                } else {
                    Err(Rejection::MalformedInstruction)
                }
            },
            None => Err(Rejection::MalformedInstruction),
        }
    }
}

} // verus!
