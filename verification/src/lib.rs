//! A tradable-shares ledger: exact pricing of shares from holder count and
//! market activity, and the state transitions of a share account under buy and
//! sell instructions.
//!
//! Prices are real numbers in the contracts and exact fractions in the code; no
//! rounding happens before a settlement amount is cut down to whole units.

pub mod account;
pub mod error;
pub mod instruction;
pub mod price;
pub mod processor;
pub mod token;

pub use account::{same_key, Key, ShareAccount};
pub use error::{FriendtechError, Rejection};
pub use instruction::FriendtechInstruction;
pub use price::{
    base_price_from_holders, checked_settlement_amount, dual_phase_pricing, settlement_amount,
    MarketSignal, Price,
};
pub use processor::{
    begin, plan_buy, plan_sell, verify_owner, Direction, PendingSettlement, Transfer,
};
