//! The ledger transition processor: it checks an instruction against a share
//! account, says what the token ledger has to move, and applies the change of
//! balance once the ledger has moved it.
//!
//! The processor never talks to the ledger. [`begin`] ends in a rejection or in
//! a [`PendingSettlement`]; the caller carries out the transfer that it names
//! and reports the result to [`PendingSettlement::conclude`]. The balance
//! changes there and nowhere else.

use crate::account::{same_key, Key, ShareAccount};
use crate::error::{FriendtechError, Rejection};
use crate::instruction::FriendtechInstruction;
use crate::price::{
    base_price, base_price_from_holders, capped_units, checked_settlement_amount,
    dual_phase_pricing, exact_units, settlement_amount, MarketSignal,
};
use crate::token::{token_account_amount, unpack_token_amount};
use vstd::prelude::*;

verus! {

/// The way in which a transfer moves funds.
#[derive(Clone, Copy, Debug, PartialEq, Eq, Structural)]
pub enum Direction {
    /// From the buyer to the program's account.
    FromBuyer,
    /// From the program's account to the seller.
    ToSeller,
}

/// A movement of funds that the token ledger is asked to carry out.
#[derive(Clone, Copy, Debug, PartialEq, Eq, Structural)]
pub struct Transfer {
    pub amount: u64,
    pub direction: Direction,
}

impl Transfer {
    /// The account that the funds leave and the account that they reach, in
    /// this order, where `trader` is the token account of the buyer or seller
    /// and `program` the one that the program controls.
    pub fn route(&self, trader: &Key, program: &Key) -> (ends: (Key, Key))
        ensures
            self.direction == Direction::FromBuyer ==> ends == (*trader, *program),
            self.direction == Direction::ToSeller ==> ends == (*program, *trader),
    {
        match self.direction {
            Direction::FromBuyer => (*trader, *program),
            Direction::ToSeller => (*program, *trader),
        }
    }
}

/// What buying `amount` shares costs the holder of `balance` shares: the
/// price per share times the amount, cut down to whole units. The price
/// follows the buyer's own balance and carries the dual-phase adjustment.
pub open spec fn buy_cost(balance: u64, amount: u64, signal: MarketSignal) -> int {
    exact_units(signal.price(balance as nat), amount as nat)
}

/// What the ledger pays out for a sale of `amount` shares by the holder of
/// `balance` shares: the base price times the amount, cut down to whole
/// units, and no more than one transfer can carry. A sale goes at the base
/// price, without the dual-phase adjustment.
pub open spec fn sell_proceeds(balance: u64, amount: u64) -> int {
    capped_units(base_price(balance as nat), amount as nat)
}

/// The amount that an instruction against an account asks the ledger to move.
pub open spec fn transfer_amount(
    account: ShareAccount,
    instruction: FriendtechInstruction,
    signal: MarketSignal,
) -> int {
    match instruction {
        FriendtechInstruction::BuyShares { amount } => buy_cost(account.balance, amount, signal),
        FriendtechInstruction::SellShares { amount } => sell_proceeds(account.balance, amount),
    }
}

/// The way in which the funds of an instruction move.
pub open spec fn transfer_direction(instruction: FriendtechInstruction) -> Direction {
    match instruction {
        FriendtechInstruction::BuyShares { .. } => Direction::FromBuyer,
        FriendtechInstruction::SellShares { .. } => Direction::ToSeller,
    }
}

/// Whether the balance can take the change that the instruction makes: a buy
/// must stay within 64 bits, a sale within what is held.
pub open spec fn can_settle(account: ShareAccount, instruction: FriendtechInstruction) -> bool {
    match instruction {
        FriendtechInstruction::BuyShares { amount } => account.balance + amount <= u64::MAX,
        FriendtechInstruction::SellShares { amount } => amount <= account.balance,
    }
}

/// The account once the instruction has settled: the same owner, and the
/// balance raised by a buy or lowered by a sale.
pub open spec fn settled_account(
    account: ShareAccount,
    instruction: FriendtechInstruction,
) -> ShareAccount {
    match instruction {
        FriendtechInstruction::BuyShares { amount } => ShareAccount {
            owner: account.owner,
            balance: (account.balance + amount) as u64,
        },
        FriendtechInstruction::SellShares { amount } => ShareAccount {
            owner: account.owner,
            balance: (account.balance - amount) as u64,
        },
    }
}

/// Whether the instruction passes every check, where `funds` is what the
/// payer's token account holds, if it can be read. A buy needs funds that
/// cover its cost and a balance that can hold the new shares; a sale needs
/// the shares.
pub open spec fn accepted(
    account: ShareAccount,
    authority: Key,
    instruction: FriendtechInstruction,
    signal: MarketSignal,
    funds: Option<u64>,
) -> bool {
    &&& account.controlled_by(authority)
    &&& match instruction {
        FriendtechInstruction::BuyShares { amount } => {
            &&& funds is Some
            &&& funds->Some_0 >= buy_cost(account.balance, amount, signal)
            &&& account.balance + amount <= u64::MAX
        },
        FriendtechInstruction::SellShares { amount } => amount <= account.balance,
    }
}

/// Whether `rejection` is the answer to an instruction that fails a check.
/// The owner is checked first. A buy then needs a readable token account,
/// funds that cover the cost, and room in the balance, in this order; a sale
/// needs the shares.
pub open spec fn rejected_with(
    rejection: Rejection,
    account: ShareAccount,
    authority: Key,
    instruction: FriendtechInstruction,
    signal: MarketSignal,
    funds: Option<u64>,
) -> bool {
    if !account.controlled_by(authority) {
        rejection == Rejection::Program(FriendtechError::IncorrectOwner)
    } else {
        match instruction {
            FriendtechInstruction::BuyShares { amount } => match funds {
                None => rejection is InvalidTokenAccount,
                Some(available) => if available < buy_cost(account.balance, amount, signal) {
                    rejection == Rejection::Program(FriendtechError::InsufficientFunds)
                } else {
                    account.balance + amount > u64::MAX && rejection == Rejection::BalanceOverflow
                },
            },
            FriendtechInstruction::SellShares { amount } => amount > account.balance && rejection
                == Rejection::Program(FriendtechError::InsufficientFunds),
        }
    }
}

/// The account as it is stored when the instruction is over: changed if the
/// instruction was accepted and the ledger settled the transfer, and as it
/// was in every other case.
pub open spec fn account_after(
    account: ShareAccount,
    authority: Key,
    instruction: FriendtechInstruction,
    signal: MarketSignal,
    funds: Option<u64>,
    settled: bool,
) -> ShareAccount {
    if accepted(account, authority, instruction, signal, funds) && settled {
        settled_account(account, instruction)
    } else {
        account
    }
}

/// Checks that the key that controls an account is the expected authority.
pub fn verify_owner(owner: &Key, authority: &Key) -> (verdict: Result<(), FriendtechError>)
    ensures
        verdict is Ok <==> owner@ == authority@,
        verdict matches Err(error) ==> error == FriendtechError::IncorrectOwner,
{
    if same_key(owner, authority) {
        Ok(())
    } else {
        Err(FriendtechError::IncorrectOwner)
    }
}

/// Prices a buy of `amount` shares and checks it against the funds that the
/// payer has available. A cost that no 64-bit balance can cover is refused
/// like any other that the payer cannot cover.
pub fn plan_buy(
    account: &ShareAccount,
    amount: u64,
    signal: &MarketSignal,
    available_funds: u64,
) -> (plan: Result<Transfer, FriendtechError>)
    requires
        signal.wf(),
    ensures
        plan is Ok <==> available_funds >= buy_cost(account.balance, amount, *signal),
        plan matches Ok(transfer) ==> transfer.amount == buy_cost(account.balance, amount, *signal)
            && transfer.direction == Direction::FromBuyer,
        plan matches Err(error) ==> error == FriendtechError::InsufficientFunds,
{
    let price_per_share = dual_phase_pricing(
        account.balance,
        signal.current_volume,
        signal.average_volume,
        signal.time_since_last_trade,
    );
    match checked_settlement_amount(&price_per_share, amount) {
        Some(total_cost) => {
            if available_funds < total_cost {
                Err(FriendtechError::InsufficientFunds)
            } else {
                Ok(Transfer { amount: total_cost, direction: Direction::FromBuyer })
            }
        },
        None => Err(FriendtechError::InsufficientFunds),
    }
}

/// Checks a sale of `amount` shares against the balance and prices it.
pub fn plan_sell(account: &ShareAccount, amount: u64) -> (plan: Result<Transfer, FriendtechError>)
    ensures
        plan is Ok <==> amount <= account.balance,
        plan matches Ok(transfer) ==> transfer.amount == sell_proceeds(account.balance, amount)
            && transfer.direction == Direction::ToSeller,
        plan matches Err(error) ==> error == FriendtechError::InsufficientFunds,
{
    if account.balance < amount {
        return Err(FriendtechError::InsufficientFunds);
    }
    let price_per_share = base_price_from_holders(account.balance);
    let total_proceeds: u64 = settlement_amount(&price_per_share, amount);
    Ok(Transfer { amount: total_proceeds, direction: Direction::ToSeller })
}

/// An instruction that has passed every check and waits for the ledger to
/// carry out its transfer. It holds the account as it was and cannot be made
/// but by [`begin`].
pub struct PendingSettlement {
    account: ShareAccount,
    instruction: FriendtechInstruction,
    transfer: Transfer,
}

impl PendingSettlement {
    /// The account as it was when the instruction was accepted.
    pub closed spec fn account(&self) -> ShareAccount {
        self.account
    }

    /// The accepted instruction.
    pub closed spec fn instruction(&self) -> FriendtechInstruction {
        self.instruction
    }

    /// The transfer that the ledger has to carry out.
    pub closed spec fn planned(&self) -> Transfer {
        self.transfer
    }

    #[verifier::type_invariant]
    spec fn balance_can_change(&self) -> bool {
        can_settle(self.account, self.instruction)
    }

    /// The transfer that the ledger has to carry out.
    pub fn transfer(&self) -> (transfer: Transfer)
        ensures
            transfer == self.planned(),
    {
        self.transfer
    }

    /// Ends the instruction with the ledger's answer. If the transfer was
    /// carried out, the result is the account with its new balance; if not,
    /// the instruction is rejected and no account comes back, so that the
    /// stored one stays as it was.
    pub fn conclude(self, settled: bool) -> (outcome: Result<ShareAccount, Rejection>)
        ensures
            can_settle(self.account(), self.instruction()),
            settled ==> outcome == Ok::<ShareAccount, Rejection>(
                settled_account(self.account(), self.instruction()),
            ),
            !settled ==> outcome == Err::<ShareAccount, Rejection>(Rejection::SettlementFailure),
    {
        proof {
            use_type_invariant(&self);
        }
        if !settled {
            return Err(Rejection::SettlementFailure);
        }
        match self.instruction {
            FriendtechInstruction::BuyShares { amount } => Ok(
                ShareAccount { owner: self.account.owner, balance: self.account.balance + amount },
            ),
            FriendtechInstruction::SellShares { amount } => Ok(
                ShareAccount { owner: self.account.owner, balance: self.account.balance - amount },
            ),
        }
    }
}

/// Checks an instruction against an account. The owner comes first. A buy is
/// then priced and held against the funds of the payer, read from the bytes
/// of the payer's token account, and against the room left in the balance; a
/// sale is held against the shares. The account is only read.
pub fn begin(
    account: &ShareAccount,
    authority: &Key,
    instruction: &FriendtechInstruction,
    signal: &MarketSignal,
    payer_token_account: &[u8],
) -> (outcome: Result<PendingSettlement, Rejection>)
    requires
        instruction is BuyShares ==> signal.wf(),
    ensures
        outcome is Ok <==> accepted(
            *account,
            *authority,
            *instruction,
            *signal,
            token_account_amount(payer_token_account@),
        ),
        outcome matches Ok(pending) ==> pending.account() == *account,
        outcome matches Ok(pending) ==> pending.instruction() == *instruction,
        outcome matches Ok(pending) ==> pending.planned().amount == transfer_amount(
            *account,
            *instruction,
            *signal,
        ),
        outcome matches Ok(pending) ==> pending.planned().direction == transfer_direction(
            *instruction,
        ),
        outcome is Ok ==> can_settle(*account, *instruction),
        outcome matches Err(rejection) ==> rejected_with(
            rejection,
            *account,
            *authority,
            *instruction,
            *signal,
            token_account_amount(payer_token_account@),
        ),
{
    if let Err(error) = verify_owner(&account.owner, authority) {
        return Err(Rejection::Program(error));
    }
    let plan = match instruction {
        FriendtechInstruction::BuyShares { amount } => {
            match unpack_token_amount(payer_token_account) {
                Ok(available_funds) => plan_buy(account, *amount, signal, available_funds),
                Err(error) => {
                    return Err(Rejection::InvalidTokenAccount(error));
                },
            }
        },
        FriendtechInstruction::SellShares { amount } => plan_sell(account, *amount),
    };
    let transfer = match plan {
        Ok(transfer) => transfer,
        Err(error) => {
            return Err(Rejection::Program(error));
        },
    };
    if let FriendtechInstruction::BuyShares { amount } = instruction {
        if *amount > u64::MAX - account.balance {
            return Err(Rejection::BalanceOverflow);
        }
    }
    Ok(PendingSettlement { account: *account, instruction: *instruction, transfer })
}

/// A sale of more shares than the account holds is refused for insufficient
/// funds and leaves the account as it was.
pub proof fn law_sale_beyond_balance_is_refused(
    account: ShareAccount,
    authority: Key,
    amount: u64,
    signal: MarketSignal,
    funds: Option<u64>,
    settled: bool,
)
    requires
        account.controlled_by(authority),
        amount > account.balance,
    ensures
        !accepted(account, authority, FriendtechInstruction::SellShares { amount }, signal, funds),
        forall|rejection: Rejection|
            rejected_with(
                rejection,
                account,
                authority,
                FriendtechInstruction::SellShares { amount },
                signal,
                funds,
            ) <==> rejection == Rejection::Program(FriendtechError::InsufficientFunds),
        account_after(
            account,
            authority,
            FriendtechInstruction::SellShares { amount },
            signal,
            funds,
            settled,
        ) == account,
{
}

/// A sale that goes through takes exactly the sold shares off the balance,
/// which therefore never falls below zero.
pub proof fn law_sale_takes_exactly(
    account: ShareAccount,
    authority: Key,
    amount: u64,
    signal: MarketSignal,
    funds: Option<u64>,
)
    requires
        accepted(account, authority, FriendtechInstruction::SellShares { amount }, signal, funds),
    ensures
        account_after(
            account,
            authority,
            FriendtechInstruction::SellShares { amount },
            signal,
            funds,
            true,
        ).balance == account.balance - amount,
        account.balance - amount >= 0,
{
}

/// A buy is refused for insufficient funds exactly when the account is under
/// the authority's control, the payer's funds can be read, and they are
/// below the price per share times the amount, cut down to whole units.
pub proof fn law_buy_needs_the_exact_cost(
    account: ShareAccount,
    authority: Key,
    amount: u64,
    signal: MarketSignal,
    available: u64,
)
    requires
        account.controlled_by(authority),
    ensures
        rejected_with(
            Rejection::Program(FriendtechError::InsufficientFunds),
            account,
            authority,
            FriendtechInstruction::BuyShares { amount },
            signal,
            Some(available),
        ) <==> available < (signal.price(account.balance as nat) * (amount as real)).floor(),
        available < (signal.price(account.balance as nat) * (amount as real)).floor() ==> !accepted(
            account,
            authority,
            FriendtechInstruction::BuyShares { amount },
            signal,
            Some(available),
        ),
{
}

/// A buy adds exactly the bought shares to the balance when it is accepted
/// and settled, and leaves the account as it was in every other case.
pub proof fn law_buy_adds_exactly(
    account: ShareAccount,
    authority: Key,
    amount: u64,
    signal: MarketSignal,
    funds: Option<u64>,
    settled: bool,
)
    ensures
        ({
            let instruction = FriendtechInstruction::BuyShares { amount };
            let after = account_after(account, authority, instruction, signal, funds, settled);
            if accepted(account, authority, instruction, signal, funds) && settled {
                after.balance == account.balance + amount && after.owner == account.owner
            } else {
                after == account
            }
        }),
{
}

/// An instruction against an account that the authority does not control is
/// refused for its owner and leaves the account as it was, whatever it asks
/// for.
pub proof fn law_wrong_owner_changes_nothing(
    account: ShareAccount,
    authority: Key,
    instruction: FriendtechInstruction,
    signal: MarketSignal,
    funds: Option<u64>,
    settled: bool,
)
    requires
        !account.controlled_by(authority),
    ensures
        !accepted(account, authority, instruction, signal, funds),
        forall|rejection: Rejection|
            rejected_with(rejection, account, authority, instruction, signal, funds)
                <==> rejection == Rejection::Program(FriendtechError::IncorrectOwner),
        account_after(account, authority, instruction, signal, funds, settled) == account,
{
}

} // verus!
