//! Loyalty-point accounts: the account aggregate with its ledger of earn and
//! burn transactions, the repository that keeps the accounts apart, and the
//! request handlers that validate input and apply one operation per request.

pub mod calendar;
pub mod decimal;
pub mod ident;
pub mod loyalty;
pub mod prelude;
pub mod repository;
pub mod service;
pub mod wire;
