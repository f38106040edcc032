//! What the ledger stores: users, accounts, transactions and assets, and the store itself.
pub mod account;
pub mod asset;
pub mod store;
pub mod transaction;
pub mod user;

pub use account::Account;
pub use asset::Asset;
pub use store::Ledger;
pub use transaction::Transaction;
pub use user::User;
