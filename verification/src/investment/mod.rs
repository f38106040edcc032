//! What a user may ask for about its accounts and transactions, and when it is granted.
pub mod account;
pub mod transaction;
