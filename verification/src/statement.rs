//! Statements derived from a chart of accounts.

pub mod equation_balance;
pub mod format;
