//! Verified accounting core of the 44 Milady collateralized-credit protocol:
//! interest-rate curve and index accrual, oracle price decoding and portfolio
//! valuation, repayment, liquidation and the bad-debt loss waterfall.
//!
//! Every instruction handler is a function from the accounts it touches (held
//! as plain values in a context struct) to their next state and the event that
//! describes the token movements to perform.

pub mod constants;
pub mod pubkey;
pub mod errors;
pub mod bytes;
pub mod state;
pub mod events;
pub mod interest;
pub mod risk;
pub mod accounts_admin;
pub mod handlers_admin;
pub mod accounts_collateral;
pub mod handlers_collateral;
pub mod accounts_lending;
pub mod handlers_lending;
pub mod accounts_liquidation;
pub mod handlers_liquidation;
pub mod laws_interest;
pub mod laws_pool;
pub mod laws_collateral;
pub mod laws_protocol;
pub mod laws_liquidation;
pub mod laws_outcomes;
