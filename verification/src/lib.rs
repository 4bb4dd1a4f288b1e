//! A per-account payments ledger.
//!
//! Transactions of five kinds (deposit, withdrawal, dispute, resolve,
//! chargeback) mutate per-account balances of available, held and total
//! funds under strict validation rules. Monetary values are fixed-point
//! integers; outputs are rounded to four decimal places.

pub mod account;
pub mod engine;
pub mod transaction;
