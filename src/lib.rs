//! Currency-aware money arithmetic and a role-based fund transfer between accounts.
pub mod bank_account;
pub mod currency;
pub mod decimal;
pub mod money;
