//! The commands that keep the income ledger.

pub mod insert;
pub mod load;
