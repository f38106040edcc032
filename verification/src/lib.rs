//! Ledger core of a personal bookkeeping backend for investment accounts.
//!
//! Users own accounts, accounts hold dated transactions, and assets carry a history of
//! prices and dividends. [`database::Ledger`] is the store; every operation on it keeps
//! [`database::store::LedgerView::valid`].
pub mod amount;
pub mod auth;
pub mod database;
pub mod date;
pub mod error;
pub mod ident;
pub mod investment;
pub mod repository;
pub mod user;
