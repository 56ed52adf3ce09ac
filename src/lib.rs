//! Verified ledger logic of the csprUSD fungible token: balances, allowances,
//! minters with mint allowances, an indexed blacklist, pausing and the
//! administrative roles, each operation stated against a mathematical model.
//!
//! [`ledger`], [`admin`] and [`blacklist`] decide each operation from the
//! values it reads and return the values to write back; [`token::Token`]
//! holds the whole state in memory and applies them.
pub mod access;
pub mod address;
pub mod admin;
pub mod amount;
pub mod blacklist;
pub mod dictionary;
pub mod error;
pub mod events;
pub mod ledger;
pub mod token;

pub use error::CsprUSDError;
