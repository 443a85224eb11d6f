//! Accounting core of a fungible-token ledger: balances, a total supply,
//! spending allowances, and the operations that move, authorise, create and
//! retire units. Every operation is verified to keep the total supply equal to
//! the sum of all balances.

pub mod account;
pub mod effect;
pub mod laws;
pub mod ledger;
pub mod model;
pub mod table;
